//! The ways in which decoding or compiling a filter can fail.
use serde_json::Error as DecodeFailure;
use vstd::prelude::*;

verus! {

#[verifier::external_type_specification]
#[verifier::external_body]
pub struct ExDecodeFailure(DecodeFailure);

/// Why a filter could not be turned into SQL.
#[derive(Debug)]
pub enum Error {
    /// The input text is not valid JSON.
    Json(DecodeFailure),
    /// An array whose first element is missing or is not a string, so it names
    /// no operator.
    NotAnOperator,
    /// An operator name outside the supported set.
    UnknownOperator(String),
    /// An operator applied to fewer operands than it needs.
    Arity(String),
}

impl From<DecodeFailure> for Error {
    fn from(error: DecodeFailure) -> (r: Error)
        ensures
            r == Error::Json(error),
    {
        Error::Json(error)
    }
}

impl vstd::std_specs::convert::FromSpecImpl<DecodeFailure> for Error {
    open spec fn obeys_from_spec() -> bool {
        true
    }

    open spec fn from_spec(error: DecodeFailure) -> Error {
        Error::Json(error)
    }
}

} // verus!
