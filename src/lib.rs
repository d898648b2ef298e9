//! Compiles filter expressions written as JSON arrays into SQL boolean
//! fragments for a `WHERE` clause.
//!
//! An expression is either a scalar, which renders as a SQL literal, or an
//! array `[operator, operand, ...]`, whose operands are compiled first and
//! then combined by the operator. String literals are single-quoted with no
//! escaping of inner quotes, and nested `all` / `any` groups are spliced in
//! without parentheses: callers that pass untrusted text or mix `AND` with
//! `OR` must account for both.
pub mod compile;
pub mod decode;
pub mod error;
pub mod json;
pub mod operators;
pub mod text;

pub use compile::{parse, to_sql};
pub use error::Error;
pub use json::{render_leaf, Json};
pub use operators::{
    all, any, eq, gt, gte, has, has_not, is_in, lt, lte, not_eq, not_in, Operator,
};
