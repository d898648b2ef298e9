//! The recursive walk from a decoded expression to one SQL fragment.
use crate::decode::{decode, decoded};
use crate::error::Error;
use crate::json::{leaf_text, render_leaf, Json};
use crate::operators::{combine, min_operands_spec, operator_named, Operator};
use crate::text::{join_spec, texts};
use vstd::prelude::*;

verus! {

broadcast use vstd::std_specs::vec::axiom_vec_index_decreases;

/// The number of elements of an array expression; zero for a scalar.
pub open spec fn width(e: Json) -> int {
    match e {
        Json::Array(items) => items@.len() as int,
        _ => 0,
    }
}

/// What compiling `e` yields: the SQL text, or the first failure met in a
/// depth-first, left-to-right walk.
pub open spec fn compile_spec(e: Json) -> Result<Seq<char>, Error>
    decreases e, width(e) + 1,
{
    match e {
        Json::Array(items) => if items@.len() == 0 {
            Err(Error::NotAnOperator)
        } else {
            match items@[0] {
                Json::Str(name) => match compile_operands(e, items@.len() - 1) {
                    Ok(parts) => apply_spec(name, parts),
                    Err(err) => Err(err),
                },
                _ => Err(Error::NotAnOperator),
            }
        },
        _ => Ok(leaf_text(e)),
    }
}

/// Operands `1..=k` of an array expression compiled in order, or the
/// failure of the leftmost one that fails.
pub open spec fn compile_operands(e: Json, k: int) -> Result<Seq<Seq<char>>, Error>
    decreases e, k,
{
    match e {
        Json::Array(items) => if k <= 0 || k >= items@.len() {
            Ok(Seq::empty())
        } else {
            match compile_operands(e, k - 1) {
                Err(err) => Err(err),
                Ok(prefix) => match compile_spec(items@[k]) {
                    Err(err) => Err(err),
                    Ok(t) => Ok(prefix.push(t)),
                },
            }
        },
        _ => Ok(Seq::empty()),
    }
}

/// The operator called `name` applied to compiled operands.
pub open spec fn apply_spec(name: String, parts: Seq<Seq<char>>) -> Result<Seq<char>, Error> {
    match operator_named(name@) {
        None => Err(Error::UnknownOperator(name)),
        Some(op) => if parts.len() < min_operands_spec(op) {
            Err(Error::Arity(name))
        } else {
            Ok(combine(op, parts))
        },
    }
}

/// A compile result with the text seen as characters.
pub open spec fn outcome(r: Result<String, Error>) -> Result<Seq<char>, Error> {
    match r {
        Ok(s) => Ok(s@),
        Err(err) => Err(err),
    }
}

/// Once an operand fails, the operand list fails with that same error.
proof fn lemma_operand_failure_persists(e: Json, j: int, m: int)
    requires
        1 <= j <= m < width(e),
        compile_operands(e, j) is Err,
    ensures
        compile_operands(e, m) == compile_operands(e, j),
    decreases m - j,
{
    if m > j {
        lemma_operand_failure_persists(e, j, m - 1);
    }
}

/// Compiles a decoded filter expression into a SQL boolean fragment.
pub fn to_sql(expression: &Json) -> (r: Result<String, Error>)
    ensures
        outcome(r) == compile_spec(*expression),
    decreases expression,
{
    match expression {
        Json::Array(items) => {
            if items.len() == 0 {
                return Err(Error::NotAnOperator);
            }
            let name = match &items[0] {
                Json::Str(name) => name,
                _ => {
                    return Err(Error::NotAnOperator);
                },
            };
            assert(items@[0] == Json::Str(*name));
            let mut parts: Vec<String> = Vec::new();
            let mut k: usize = 1;
            assert(texts(parts@) =~= Seq::<Seq<char>>::empty());
            while k < items.len()
                invariant
                    1 <= k <= items@.len(),
                    width(*expression) == items@.len(),
                    *expression == Json::Array(*items),
                    items@[0] == Json::Str(*name),
                    compile_operands(*expression, k - 1) == Ok::<Seq<Seq<char>>, Error>(
                        texts(parts@),
                    ),
                decreases items@.len() - k,
            {
                match to_sql(&items[k]) {
                    Ok(t) => {
                        let ghost before = texts(parts@);
                        parts.push(t);
                        assert(texts(parts@) =~= before.push(t@));
                    },
                    Err(err) => {
                        proof {
                            assert(compile_operands(*expression, k as int) == Err::<
                                Seq<Seq<char>>,
                                Error,
                            >(err));
                            lemma_operand_failure_persists(
                                *expression,
                                k as int,
                                items@.len() - 1,
                            );
                        }
                        return Err(err);
                    },
                }
                k = k + 1;
            }
            match Operator::named(name) {
                None => Err(Error::UnknownOperator(name.clone())),
                Some(op) => {
                    if parts.len() < op.min_operands() {
                        Err(Error::Arity(name.clone()))
                    } else {
                        Ok(op.apply(parts))
                    }
                },
            }
        },
        _ => Ok(render_leaf(expression)),
    }
}

/// Decodes `expression` as JSON and compiles the value; text that is not
/// JSON gives `Error::Json`.
pub fn parse(expression: &str) -> (r: Result<String, Error>)
    ensures
        match decoded(expression@) {
            Some(v) => outcome(r) == compile_spec(v),
            None => r matches Err(Error::Json(_)),
        },
{
    match decode(expression) {
        Ok(value) => to_sql(&value),
        Err(e) => Err(Error::from(e)),
    }
}

/// The compiled texts of operands `1..=k` of an array expression.
pub open spec fn operand_texts(e: Json, k: int) -> Seq<Seq<char>> {
    Seq::new(k as nat, |i: int| compile_spec(e->Array_0@[i + 1])->Ok_0)
}

/// Where each of operands `1..=k` compiles, the list compiles to their texts.
proof fn lemma_operands_compile(e: Json, k: int)
    requires
        e is Array,
        0 <= k < width(e),
        forall|i: int| 1 <= i <= k ==> (#[trigger] compile_spec(e->Array_0@[i])) is Ok,
    ensures
        compile_operands(e, k) == Ok::<Seq<Seq<char>>, Error>(operand_texts(e, k)),
    decreases k,
{
    if k > 0 {
        lemma_operands_compile(e, k - 1);
        assert(operand_texts(e, k - 1).push(compile_spec(e->Array_0@[k])->Ok_0) =~= operand_texts(
            e,
            k,
        ));
    } else {
        assert(operand_texts(e, 0) =~= Seq::<Seq<char>>::empty());
    }
}

/// An `all` expression whose operands compile yields their texts joined with
/// ` AND `, in order, and an `any` expression joins them with ` OR `: nested
/// groups are spliced in as they are, with no parentheses added.
pub proof fn lemma_all_any_join(e: Json)
    requires
        e is Array,
        width(e) >= 2,
        e->Array_0@[0] is Str,
        e->Array_0@[0]->Str_0@ == "all"@ || e->Array_0@[0]->Str_0@ == "any"@,
        forall|i: int| 1 <= i < width(e) ==> (#[trigger] compile_spec(e->Array_0@[i])) is Ok,
    ensures
        e->Array_0@[0]->Str_0@ == "all"@ ==> compile_spec(e) == Ok::<Seq<char>, Error>(
            join_spec(operand_texts(e, width(e) - 1), " AND "@),
        ),
        e->Array_0@[0]->Str_0@ == "any"@ ==> compile_spec(e) == Ok::<Seq<char>, Error>(
            join_spec(operand_texts(e, width(e) - 1), " OR "@),
        ),
{
    reveal_strlit("has");
    reveal_strlit("!has");
    reveal_strlit("==");
    reveal_strlit("!=");
    reveal_strlit(">");
    reveal_strlit(">=");
    reveal_strlit("<");
    reveal_strlit("<=");
    reveal_strlit("in");
    reveal_strlit("!in");
    reveal_strlit("all");
    reveal_strlit("any");
    let name = e->Array_0@[0]->Str_0;
    assert("has"@[0] != "all"@[0] && "!in"@[0] != "all"@[0]);
    assert("has"@[0] != "any"@[0] && "!in"@[0] != "any"@[0] && "all"@[1] != "any"@[1]);
    if name@ == "all"@ {
        assert(operator_named(name@) == Some(Operator::All));
    } else {
        assert(operator_named(name@) == Some(Operator::Any));
    }
    lemma_operands_compile(e, width(e) - 1);
}

/// An array headed by a name outside the operator set fails: with the
/// first failure among its operands, or else with `UnknownOperator` and that
/// name.
pub proof fn lemma_unknown_operator(e: Json)
    requires
        e is Array,
        width(e) >= 1,
        e->Array_0@[0] is Str,
        operator_named(e->Array_0@[0]->Str_0@) is None,
    ensures
        compile_spec(e) is Err,
        compile_operands(e, width(e) - 1) is Ok ==> compile_spec(e) == Err::<Seq<char>, Error>(
            Error::UnknownOperator(e->Array_0@[0]->Str_0),
        ),
{
}

/// An operator given no operands fails with `Arity` and its name.
pub proof fn lemma_no_operands(e: Json)
    requires
        e is Array,
        width(e) == 1,
        e->Array_0@[0] is Str,
        operator_named(e->Array_0@[0]->Str_0@) is Some,
    ensures
        compile_spec(e) == Err::<Seq<char>, Error>(Error::Arity(e->Array_0@[0]->Str_0)),
{
}

} // verus!
