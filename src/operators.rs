//! The fixed set of operators, and how each combines already rendered
//! operands into one SQL fragment.
use crate::text::{join_from, join_spec, texts, trim_quotes, trim_quotes_spec};
use vstd::prelude::*;

verus! {

/// An operator of the filter language.
#[derive(Debug, Clone, Copy, PartialEq, Eq, Structural)]
pub enum Operator {
    Has,
    HasNot,
    Eq,
    NotEq,
    Gt,
    Gte,
    Lt,
    Lte,
    In,
    NotIn,
    All,
    Any,
}

/// The operator that a name denotes; names match case-sensitively.
pub open spec fn operator_named(name: Seq<char>) -> Option<Operator> {
    if name == "has"@ {
        Some(Operator::Has)
    } else if name == "!has"@ {
        Some(Operator::HasNot)
    } else if name == "=="@ {
        Some(Operator::Eq)
    } else if name == "!="@ {
        Some(Operator::NotEq)
    } else if name == ">"@ {
        Some(Operator::Gt)
    } else if name == ">="@ {
        Some(Operator::Gte)
    } else if name == "<"@ {
        Some(Operator::Lt)
    } else if name == "<="@ {
        Some(Operator::Lte)
    } else if name == "in"@ {
        Some(Operator::In)
    } else if name == "!in"@ {
        Some(Operator::NotIn)
    } else if name == "all"@ {
        Some(Operator::All)
    } else if name == "any"@ {
        Some(Operator::Any)
    } else {
        None
    }
}

/// The fewest operands that an operator takes.
pub open spec fn min_operands_spec(op: Operator) -> nat {
    match op {
        Operator::Has | Operator::HasNot | Operator::All | Operator::Any => 1,
        _ => 2,
    }
}

/// `key <symbol> value`, the key with its quotes stripped.
pub open spec fn comparison(operands: Seq<Seq<char>>, symbol: Seq<char>) -> Seq<char> {
    trim_quotes_spec(operands[0]) + symbol + operands[1]
}

/// `key <head> v1, v2, ...)`, the key with its quotes stripped.
pub open spec fn membership(operands: Seq<Seq<char>>, head: Seq<char>) -> Seq<char> {
    trim_quotes_spec(operands[0]) + head + join_spec(operands.drop_first(), ", "@) + ")"@
}

/// The fragment that an operator makes of its rendered operands.
pub open spec fn combine(op: Operator, operands: Seq<Seq<char>>) -> Seq<char> {
    match op {
        Operator::Has => trim_quotes_spec(operands[0]) + " IS NOT NULL"@,
        Operator::HasNot => trim_quotes_spec(operands[0]) + " IS NULL"@,
        Operator::Eq => comparison(operands, " = "@),
        Operator::NotEq => comparison(operands, " <> "@),
        Operator::Gt => comparison(operands, " > "@),
        Operator::Gte => comparison(operands, " >= "@),
        Operator::Lt => comparison(operands, " < "@),
        Operator::Lte => comparison(operands, " <= "@),
        Operator::In => membership(operands, " IN ("@),
        Operator::NotIn => membership(operands, " NOT IN ("@),
        Operator::All => join_spec(operands, " AND "@),
        Operator::Any => join_spec(operands, " OR "@),
    }
}

impl Operator {
    /// Looks an operator up by name.
    pub fn named(name: &String) -> (r: Option<Operator>)
        ensures
            r == operator_named(name@),
    {
        if *name == String::from_str("has") {
            Some(Operator::Has)
        } else if *name == String::from_str("!has") {
            Some(Operator::HasNot)
        } else if *name == String::from_str("==") {
            Some(Operator::Eq)
        } else if *name == String::from_str("!=") {
            Some(Operator::NotEq)
        } else if *name == String::from_str(">") {
            Some(Operator::Gt)
        } else if *name == String::from_str(">=") {
            Some(Operator::Gte)
        } else if *name == String::from_str("<") {
            Some(Operator::Lt)
        } else if *name == String::from_str("<=") {
            Some(Operator::Lte)
        } else if *name == String::from_str("in") {
            Some(Operator::In)
        } else if *name == String::from_str("!in") {
            Some(Operator::NotIn)
        } else if *name == String::from_str("all") {
            Some(Operator::All)
        } else if *name == String::from_str("any") {
            Some(Operator::Any)
        } else {
            None
        }
    }

    /// The fewest operands that this operator takes.
    pub fn min_operands(&self) -> (r: usize)
        ensures
            r == min_operands_spec(*self),
    {
        match self {
            Operator::Has | Operator::HasNot | Operator::All | Operator::Any => 1,
            _ => 2,
        }
    }

    /// Combines rendered operands into this operator's fragment.
    pub fn apply(&self, operands: Vec<String>) -> (r: String)
        requires
            operands@.len() >= min_operands_spec(*self),
        ensures
            r@ == combine(*self, texts(operands@)),
    {
        match self {
            Operator::Has => has(operands),
            Operator::HasNot => has_not(operands),
            Operator::Eq => eq(operands),
            Operator::NotEq => not_eq(operands),
            Operator::Gt => gt(operands),
            Operator::Gte => gte(operands),
            Operator::Lt => lt(operands),
            Operator::Lte => lte(operands),
            Operator::In => is_in(operands),
            Operator::NotIn => not_in(operands),
            Operator::All => all(operands),
            Operator::Any => any(operands),
        }
    }
}

/// The first operand with its quotes stripped, followed by `tail`.
fn key_then(operands: &Vec<String>, tail: &str) -> (r: String)
    requires
        operands@.len() >= 1,
    ensures
        r@ == trim_quotes_spec(operands@[0]@) + tail@,
{
    let mut r = trim_quotes(operands[0].as_str());
    r.append(tail);
    r
}

/// `key <symbol> value` of the first two operands.
fn compare(operands: &Vec<String>, symbol: &str) -> (r: String)
    requires
        operands@.len() >= 2,
    ensures
        r@ == comparison(texts(operands@), symbol@),
{
    let mut r = key_then(operands, symbol);
    r.append(operands[1].as_str());
    r
}

/// `key <head> v1, v2, ...)`: the first operand, then the others as a list.
fn member_of(operands: &Vec<String>, head: &str) -> (r: String)
    requires
        operands@.len() >= 1,
    ensures
        r@ == membership(texts(operands@), head@),
{
    let mut r = key_then(operands, head);
    let values = join_from(operands, 1, ", ");
    r.append(values.as_str());
    r.append(")");
    assert(texts(operands@.subrange(1, operands@.len() as int)) =~= texts(operands@).drop_first());
    r
}

/// `key IS NOT NULL`.
pub fn has(operands: Vec<String>) -> (r: String)
    requires
        operands@.len() >= 1,
    ensures
        r@ == trim_quotes_spec(operands@[0]@) + " IS NOT NULL"@,
{
    key_then(&operands, " IS NOT NULL")
}

/// `key IS NULL`.
pub fn has_not(operands: Vec<String>) -> (r: String)
    requires
        operands@.len() >= 1,
    ensures
        r@ == trim_quotes_spec(operands@[0]@) + " IS NULL"@,
{
    key_then(&operands, " IS NULL")
}

/// `key = value`.
pub fn eq(operands: Vec<String>) -> (r: String)
    requires
        operands@.len() >= 2,
    ensures
        r@ == trim_quotes_spec(operands@[0]@) + " = "@ + operands@[1]@,
{
    compare(&operands, " = ")
}

/// `key <> value`.
pub fn not_eq(operands: Vec<String>) -> (r: String)
    requires
        operands@.len() >= 2,
    ensures
        r@ == trim_quotes_spec(operands@[0]@) + " <> "@ + operands@[1]@,
{
    compare(&operands, " <> ")
}

/// `key > value`.
pub fn gt(operands: Vec<String>) -> (r: String)
    requires
        operands@.len() >= 2,
    ensures
        r@ == trim_quotes_spec(operands@[0]@) + " > "@ + operands@[1]@,
{
    compare(&operands, " > ")
}

/// `key >= value`.
pub fn gte(operands: Vec<String>) -> (r: String)
    requires
        operands@.len() >= 2,
    ensures
        r@ == trim_quotes_spec(operands@[0]@) + " >= "@ + operands@[1]@,
{
    compare(&operands, " >= ")
}

/// `key < value`.
pub fn lt(operands: Vec<String>) -> (r: String)
    requires
        operands@.len() >= 2,
    ensures
        r@ == trim_quotes_spec(operands@[0]@) + " < "@ + operands@[1]@,
{
    compare(&operands, " < ")
}

/// `key <= value`.
pub fn lte(operands: Vec<String>) -> (r: String)
    requires
        operands@.len() >= 2,
    ensures
        r@ == trim_quotes_spec(operands@[0]@) + " <= "@ + operands@[1]@,
{
    compare(&operands, " <= ")
}

/// `key IN (v1, v2, ...)`.
pub fn is_in(operands: Vec<String>) -> (r: String)
    requires
        operands@.len() >= 1,
    ensures
        r@ == trim_quotes_spec(operands@[0]@) + " IN ("@ + join_spec(texts(operands@).drop_first(), ", "@) + ")"@,
{
    member_of(&operands, " IN (")
}

/// `key NOT IN (v1, v2, ...)`.
pub fn not_in(operands: Vec<String>) -> (r: String)
    requires
        operands@.len() >= 1,
    ensures
        r@ == trim_quotes_spec(operands@[0]@) + " NOT IN ("@ + join_spec(texts(operands@).drop_first(), ", "@) + ")"@,
{
    member_of(&operands, " NOT IN (")
}

/// The operands joined with ` AND `.
pub fn all(operands: Vec<String>) -> (r: String)
    ensures
        r@ == join_spec(texts(operands@), " AND "@),
{
    let r = join_from(&operands, 0, " AND ");
    assert(operands@.subrange(0, operands@.len() as int) =~= operands@);
    r
}

/// The operands joined with ` OR `.
pub fn any(operands: Vec<String>) -> (r: String)
    ensures
        r@ == join_spec(texts(operands@), " OR "@),
{
    let r = join_from(&operands, 0, " OR ");
    assert(operands@.subrange(0, operands@.len() as int) =~= operands@);
    r
}

} // verus!
