use json_sql_filter::{parse, Error};

#[test]
fn test_existential() {
    assert_eq!(parse(r#"["has", "key"]"#).unwrap(), "key IS NOT NULL");
    assert_eq!(parse(r#"["!has", "key"]"#).unwrap(), "key IS NULL");
}

#[test]
fn test_comparison() {
    assert_eq!(parse(r#"["==", "key", 42]"#).unwrap(), r#"key = 42"#);
    assert_eq!(parse(r#"["==", "key", "value"]"#).unwrap(), "key = 'value'");
    assert_eq!(parse(r#"["!=", "key", "value"]"#).unwrap(), "key <> 'value'");
    assert_eq!(parse(r#"[">", "key", "value"]"#).unwrap(), "key > 'value'");
    assert_eq!(parse(r#"[">=", "key", "value"]"#).unwrap(), "key >= 'value'");
    assert_eq!(parse(r#"["<", "key", "value"]"#).unwrap(), "key < 'value'");
    assert_eq!(parse(r#"["<=", "key", "value"]"#).unwrap(), "key <= 'value'");
}

#[test]
fn test_set_membership() {
    assert_eq!(
        parse(r#"["in", "key", "v0", "v1", "v2"]"#).unwrap(),
        "key IN ('v0', 'v1', 'v2')"
    );
    assert_eq!(
        parse(r#"["!in", "key", "v0", "v1", "v2"]"#).unwrap(),
        "key NOT IN ('v0', 'v1', 'v2')"
    );
}

#[test]
fn test_combining() {
    assert_eq!(
        parse(r#"["all", ["==", "key0", "value0"], ["==", "key1", "value1"], ["==", "key2", "value2"]]"#).unwrap(),
        r#"key0 = 'value0' AND key1 = 'value1' AND key2 = 'value2'"#
    );

    assert_eq!(
        parse(r#"["any", ["==", "key0", "value0"], ["==", "key1", "value1"], ["==", "key2", "value2"]]"#).unwrap(),
        r#"key0 = 'value0' OR key1 = 'value1' OR key2 = 'value2'"#
    );
}

#[test]
fn two_operand_all_and_any() {
    assert_eq!(
        parse(r#"["all", ["==", "a", "1"], ["==", "b", "2"]]"#).unwrap(),
        "a = '1' AND b = '2'"
    );
    assert_eq!(
        parse(r#"["any", ["==", "a", "1"], ["==", "b", "2"]]"#).unwrap(),
        "a = '1' OR b = '2'"
    );
}

#[test]
fn nested_groups_are_spliced_without_parentheses() {
    assert_eq!(
        parse(r#"["any", ["all", ["==", "a", "1"], ["==", "b", "2"]], ["==", "c", "3"]]"#).unwrap(),
        "a = '1' AND b = '2' OR c = '3'"
    );
    assert_eq!(
        parse(r#"["all", ["any", ["has", "a"], ["!has", "b"]], ["in", "c", 1, 2]]"#).unwrap(),
        "a IS NOT NULL OR b IS NULL AND c IN (1, 2)"
    );
}

#[test]
fn single_operand_groups() {
    assert_eq!(parse(r#"["all", ["has", "a"]]"#).unwrap(), "a IS NOT NULL");
    assert_eq!(parse(r#"["any", ["has", "a"]]"#).unwrap(), "a IS NOT NULL");
}

#[test]
fn unknown_operator_is_reported() {
    match parse(r#"["bogus", "k"]"#) {
        Err(Error::UnknownOperator(name)) => assert_eq!(name, "bogus"),
        other => panic!("unexpected {:?}", other),
    }
    match parse(r#"["bogus"]"#) {
        Err(Error::UnknownOperator(name)) => assert_eq!(name, "bogus"),
        other => panic!("unexpected {:?}", other),
    }
    match parse(r#"["HAS", "k"]"#) {
        Err(Error::UnknownOperator(name)) => assert_eq!(name, "HAS"),
        other => panic!("unexpected {:?}", other),
    }
}

#[test]
fn missing_operands_are_an_arity_error() {
    for (text, op) in [
        (r#"["has"]"#, "has"),
        (r#"["!has"]"#, "!has"),
        (r#"["=="]"#, "=="),
        (r#"["==", "k"]"#, "=="),
        (r#"["<=", "k"]"#, "<="),
        (r#"["in", "k"]"#, "in"),
        (r#"["!in"]"#, "!in"),
        (r#"["all"]"#, "all"),
        (r#"["any"]"#, "any"),
    ] {
        match parse(text) {
            Err(Error::Arity(name)) => assert_eq!(name, op),
            other => panic!("unexpected {:?} for {}", other, text),
        }
    }
}

#[test]
fn malformed_text_is_a_decode_error() {
    assert!(matches!(parse(r#"["has", "k""#), Err(Error::Json(_))));
    assert!(matches!(parse(""), Err(Error::Json(_))));
    assert!(matches!(parse("has k"), Err(Error::Json(_))));
}

#[test]
fn operator_position_must_hold_a_string() {
    assert!(matches!(parse(r#"[1, "k"]"#), Err(Error::NotAnOperator)));
    assert!(matches!(parse(r#"[["has", "k"], "k"]"#), Err(Error::NotAnOperator)));
    assert!(matches!(parse("[]"), Err(Error::NotAnOperator)));
}

#[test]
fn first_failure_wins() {
    match parse(r#"["all", ["bogus", "k"], ["nope", "k"]]"#) {
        Err(Error::UnknownOperator(name)) => assert_eq!(name, "bogus"),
        other => panic!("unexpected {:?}", other),
    }
    match parse(r#"["bogus", ["=="]]"#) {
        Err(Error::Arity(name)) => assert_eq!(name, "=="),
        other => panic!("unexpected {:?}", other),
    }
}

#[test]
fn scalars_render_as_literals() {
    assert_eq!(parse(r#""v""#).unwrap(), "'v'");
    assert_eq!(parse("42").unwrap(), "42");
    assert_eq!(parse("-7").unwrap(), "-7");
    assert_eq!(parse("true").unwrap(), "true");
    assert_eq!(parse("false").unwrap(), "false");
    assert_eq!(parse("null").unwrap(), "null");
}

#[test]
fn numbers_take_their_canonical_text() {
    assert_eq!(parse(r#"["==", "k", 2.5]"#).unwrap(), "k = 2.5");
    assert_eq!(parse(r#"["==", "k", 1e2]"#).unwrap(), "k = 100.0");
    assert_eq!(parse(r#"[">", "k", -3]"#).unwrap(), "k > -3");
}

#[test]
fn objects_render_as_compact_json() {
    assert_eq!(
        parse(r#"["==", "k", { "b" : 1, "a" : [true, null] }]"#).unwrap(),
        r#"k = {"a":[true,null],"b":1}"#
    );
}

#[test]
fn booleans_and_null_as_values() {
    assert_eq!(parse(r#"["==", "k", true]"#).unwrap(), "k = true");
    assert_eq!(parse(r#"["!=", "k", null]"#).unwrap(), "k <> null");
}

#[test]
fn inner_quotes_are_not_escaped() {
    assert_eq!(parse(r#"["==", "k", "it's"]"#).unwrap(), "k = 'it's'");
}

#[test]
fn key_quotes_are_stripped_only_at_the_ends() {
    assert_eq!(parse(r#"["has", "'a'b'"]"#).unwrap(), "a'b IS NOT NULL");
    assert_eq!(parse(r#"["has", "''"]"#).unwrap(), " IS NOT NULL");
    assert_eq!(parse(r#"["==", 5, "v"]"#).unwrap(), "5 = 'v'");
}

#[test]
fn extra_operands_of_binary_operators_are_ignored() {
    assert_eq!(parse(r#"["==", "k", 1, 2]"#).unwrap(), "k = 1");
    assert_eq!(parse(r#"["has", "k", "x"]"#).unwrap(), "k IS NOT NULL");
}
