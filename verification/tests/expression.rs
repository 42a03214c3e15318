use golden_compare::expression::{
    conclude, ExpressionError, HostAttributes, Predicate, TestExpression, MAX_EXPRESSION_LENGTH,
};

fn linux() -> HostAttributes {
    HostAttributes {
        os: "linux".to_string(),
        arch: "x86_64".to_string(),
        family: "unix".to_string(),
    }
}

fn evaluate(source: &str) -> Result<bool, ExpressionError> {
    TestExpression::new(source.to_string()).evaluate(&linux())
}

fn key_value(key: &str, val: &str) -> Predicate {
    Predicate::KeyValue {
        key: key.to_string(),
        val: val.to_string(),
        text: format!("{key} = {val}"),
    }
}

#[test]
fn negated_mismatch_is_true() {
    assert_eq!(evaluate("not(os = \"aarch64\")"), Ok(true));
}

#[test]
fn matching_predicates_are_true() {
    assert_eq!(evaluate("os = \"linux\""), Ok(true));
    assert_eq!(evaluate("arch = \"x86_64\""), Ok(true));
    assert_eq!(evaluate("family = \"unix\""), Ok(true));
}

#[test]
fn recognized_mismatch_is_false_not_an_error() {
    assert_eq!(evaluate("os = \"windows\""), Ok(false));
    assert_eq!(evaluate("arch = \"aarch64\""), Ok(false));
    assert_eq!(evaluate("family = \"windows\""), Ok(false));
}

#[test]
fn compound_forms_combine_predicates() {
    assert_eq!(evaluate("all(os = \"linux\", arch = \"x86_64\")"), Ok(true));
    assert_eq!(evaluate("all(os = \"linux\", arch = \"aarch64\")"), Ok(false));
    assert_eq!(evaluate("any(os = \"windows\", arch = \"x86_64\")"), Ok(true));
    assert_eq!(evaluate("any(os = \"windows\", os = \"macos\")"), Ok(false));
    assert_eq!(
        evaluate("all(any(os = \"macos\", os = \"linux\"), not(arch = \"arm\"))"),
        Ok(true)
    );
    assert_eq!(evaluate("all()"), Ok(true));
    assert_eq!(evaluate("any()"), Ok(false));
}

#[test]
fn surrounding_cfg_is_accepted() {
    assert_eq!(evaluate("cfg(os = \"linux\")"), Ok(true));
    assert_eq!(evaluate("cfg(not(os = \"linux\"))"), Ok(false));
}

#[test]
fn unknown_key_is_an_error() {
    match evaluate("foo = \"bar\"") {
        Err(ExpressionError::UnknownPredicate { predicate }) => {
            assert!(predicate.contains("foo"));
            assert!(predicate.contains("bar"));
        }
        other => panic!("unexpected outcome {other:?}"),
    }
}

#[test]
fn unknown_key_is_an_error_even_where_the_value_is_decided() {
    // `any` is already true by its first operand.
    assert!(matches!(
        evaluate("any(os = \"linux\", foo = \"bar\")"),
        Err(ExpressionError::UnknownPredicate { .. })
    ));
    assert!(matches!(
        evaluate("not(foo = \"linux\")"),
        Err(ExpressionError::UnknownPredicate { .. })
    ));
}

#[test]
fn predicates_with_a_meaning_of_their_own_are_unknown() {
    assert!(matches!(
        evaluate("target_os = \"linux\""),
        Err(ExpressionError::UnknownPredicate { .. })
    ));
    assert!(matches!(evaluate("unix"), Err(ExpressionError::UnknownPredicate { .. })));
    assert!(matches!(evaluate("os"), Err(ExpressionError::UnknownPredicate { .. })));
}

#[test]
fn the_last_unknown_predicate_is_reported() {
    match evaluate("all(foo = \"1\", os = \"linux\", bar = \"2\")") {
        Err(ExpressionError::UnknownPredicate { predicate }) => {
            assert!(predicate.contains("bar"));
            assert!(!predicate.contains("foo"));
        }
        other => panic!("unexpected outcome {other:?}"),
    }
}

#[test]
fn malformed_text_is_a_parse_error() {
    for source in ["", "not(", "os = ", "os = \"linux", "not(os = \"a\", os = \"b\")", "a b", "%"] {
        assert!(
            matches!(evaluate(source), Err(ExpressionError::Parse { .. })),
            "source {source:?}"
        );
    }
}

#[test]
fn overlong_text_is_refused() {
    let at_limit = format!("os = \"{}\"", "x".repeat(MAX_EXPRESSION_LENGTH - 7));
    assert_eq!(at_limit.chars().count(), MAX_EXPRESSION_LENGTH);
    assert_eq!(evaluate(&at_limit), Ok(false));
    let over_limit = format!("os = \"{}\"", "x".repeat(MAX_EXPRESSION_LENGTH - 6));
    assert_eq!(evaluate(&over_limit), Err(ExpressionError::TooLong));
}

#[test]
fn many_nested_operators_within_the_limit_evaluate() {
    let mut source = String::from("all(");
    for _ in 0..200 {
        source.push_str("all()");
        source.push(',');
    }
    source.push(')');
    assert!(source.chars().count() > MAX_EXPRESSION_LENGTH);
    assert_eq!(evaluate(&source), Err(ExpressionError::TooLong));
    let mut shorter = String::from("all(");
    for _ in 0..150 {
        shorter.push_str("any(),");
    }
    shorter.push(')');
    assert!(shorter.chars().count() <= MAX_EXPRESSION_LENGTH);
    assert_eq!(evaluate(&shorter), Ok(false));
}

#[test]
fn predicate_holds_only_on_exact_value() {
    let host = linux();
    assert!(key_value("os", "linux").holds(&host));
    assert!(!key_value("os", "Linux").holds(&host));
    assert!(!key_value("os", "unix").holds(&host));
    assert!(key_value("family", "unix").holds(&host));
    assert!(!key_value("foo", "linux").holds(&host));
    assert!(!Predicate::Other { text: "Test".to_string() }.holds(&host));
}

#[test]
fn recognized_keys_are_os_arch_family() {
    assert!(key_value("os", "").recognized());
    assert!(key_value("arch", "").recognized());
    assert!(key_value("family", "").recognized());
    assert!(!key_value("foo", "").recognized());
    assert!(!key_value("OS", "").recognized());
    assert!(!Predicate::Other { text: "Flag(\"os\")".to_string() }.recognized());
}

#[test]
fn conclusion_is_the_value_without_unknown_predicates() {
    let predicates = vec![key_value("os", "a"), key_value("arch", "b")];
    assert_eq!(conclude(&predicates, true), Ok(true));
    assert_eq!(conclude(&predicates, false), Ok(false));
    assert_eq!(conclude(&Vec::new(), true), Ok(true));
}

#[test]
fn conclusion_names_the_last_unknown_predicate() {
    let predicates = vec![
        Predicate::Other { text: "first".to_string() },
        key_value("os", "a"),
        Predicate::Other { text: "second".to_string() },
        key_value("family", "b"),
    ];
    assert_eq!(
        conclude(&predicates, true),
        Err(ExpressionError::UnknownPredicate { predicate: "second".to_string() })
    );
}

#[test]
fn messages_describe_the_error() {
    assert_eq!(
        ExpressionError::UnknownPredicate { predicate: "Flag(\"x\")".to_string() }.message(),
        "Unknown predicate used in expression: Flag(\"x\")"
    );
    assert_eq!(
        ExpressionError::Parse { message: "bad".to_string() }.message(),
        "Cannot parse expression:\nbad"
    );
    assert_eq!(ExpressionError::TooLong.message(), "Cannot parse expression: it is too long");
}
