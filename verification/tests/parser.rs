//! The line grammar.

use slotdb::db::Operation;
use slotdb::parser::RawStatement;
use slotdb::parser::RawValue;
use slotdb::parser::comparison;
use slotdb::parser::comparison_command;
use slotdb::parser::escaped_quote;
use slotdb::parser::quoted_string;
use slotdb::parser::raw_string;
use slotdb::parser::set_command;
use slotdb::parser::statement;
use slotdb::parser::variable;
use slotdb::values::SimpleType;

#[test]
fn test_variable_parsing() {
    let v = variable("4").unwrap();
    assert!(v.resolve(None) == SimpleType::from_int(4));

    let v = variable("4.0").unwrap();
    let bits = 4.0f64.to_bits();
    assert!(v.resolve(Some(bits)) == SimpleType::from_float_bits(bits));
}

#[test]
fn test_explicit_quoted_string_parsing() {
    let s = r#""You are a monkey""#;
    let _v = quoted_string(s).unwrap();
}

#[test]
fn test_string_parsing() {
    let s = r#""You are a monkey""#;
    println!("expecting quotes: {}", s);
    let v = variable(s).unwrap();
    assert!(v.resolve(None) == SimpleType::from_string("You are a monkey"));
}

#[test]
fn test_simple_string() {
    raw_string("test").unwrap();
}

#[test]
fn test_escaped_quote() {
    escaped_quote(r#"\""#).unwrap();
}

#[test]
fn test_set_command() {
    set_command("var = 1").unwrap();
}

#[test]
fn test_comparison_parsing() {
    comparison(">").expect(">");
    comparison("<").expect("<");
    comparison("<=").expect("<=");
    comparison(">=").expect(">=");

    comparison_command("var > 5").unwrap();
    comparison_command("var >= 5").unwrap();
    comparison_command("var <= 5").unwrap();
    comparison_command("var < 5").unwrap();
}

#[test]
fn test_comparison_operators() {
    assert_eq!(comparison(">").unwrap(), Operation::Gt);
    assert_eq!(comparison("<").unwrap(), Operation::Lt);
    assert_eq!(comparison(">=").unwrap(), Operation::Gte);
    assert_eq!(comparison("<=").unwrap(), Operation::Lte);
    assert_eq!(comparison("==").unwrap(), Operation::Eq);
    assert!(comparison("=").is_err());
    assert!(comparison(">x").is_err());
}

#[test]
fn test_statement_forms() {
    assert!(matches!(statement("type int"), Ok(RawStatement::SetType(_))));
    assert!(matches!(
        statement("type float"),
        Ok(RawStatement::SetType(_))
    ));
    assert!(matches!(
        statement("type string"),
        Ok(RawStatement::SetType(_))
    ));
    assert!(matches!(
        statement("var = 4.5"),
        Ok(RawStatement::SetVar(RawValue::Float(_)))
    ));
    assert!(matches!(
        statement(r#"var = "this is a var""#),
        Ok(RawStatement::SetVar(RawValue::Str(_)))
    ));
    assert!(matches!(
        statement("var = 5"),
        Ok(RawStatement::SetVar(RawValue::Int(5)))
    ));
    assert!(matches!(
        statement("var > 10"),
        Ok(RawStatement::Comparison(RawValue::Int(10), Operation::Gt))
    ));
    assert!(matches!(
        statement("var < 5.0"),
        Ok(RawStatement::Comparison(RawValue::Float(_), Operation::Lt))
    ));
    assert!(matches!(
        statement("var == 2.0"),
        Ok(RawStatement::Comparison(RawValue::Float(_), Operation::Eq))
    ));
    assert!(matches!(statement("var"), Ok(RawStatement::Get)));
    assert!(statement("garbage !!!").is_err());
    assert!(statement("").is_err());
    assert!(statement("5").is_err());
    assert!(statement(r#"var = "unterminated"#).is_err());
}

#[test]
fn test_float_literal_keeps_text() {
    match statement("x = 4.5").unwrap() {
        RawStatement::SetVar(RawValue::Float(t)) => assert_eq!(t, "4.5"),
        other => panic!("unexpected parse: {:?}", other),
    }
    match statement("x = -0.25").unwrap() {
        RawStatement::SetVar(RawValue::Float(t)) => assert_eq!(t, "-0.25"),
        other => panic!("unexpected parse: {:?}", other),
    }
}

#[test]
fn test_escaped_quote_in_string() {
    match statement(r#"x = "a\"b""#).unwrap() {
        RawStatement::SetVar(RawValue::Str(t)) => assert_eq!(t, "a\"b"),
        other => panic!("unexpected parse: {:?}", other),
    }
}

#[test]
fn test_int_literal_bounds() {
    assert!(matches!(
        statement("x = 9223372036854775807"),
        Ok(RawStatement::SetVar(RawValue::Int(i64::MAX)))
    ));
    assert!(matches!(
        statement("x = -9223372036854775808"),
        Ok(RawStatement::SetVar(RawValue::Int(i64::MIN)))
    ));
    assert!(statement("x = 9223372036854775808").is_err());
    assert!(statement("x = -9223372036854775809").is_err());
    assert!(statement("x = 99999999999999999999999999").is_err());
}

#[test]
fn test_negative_int_parsing() {
    let v = variable("-7").unwrap();
    assert!(v.resolve(None) == SimpleType::from_int(-7));
}

#[test]
fn test_float_text_query() {
    let st = statement("x = 4.5").unwrap();
    assert_eq!(st.float_text().map(|t| t.as_str()), Some("4.5"));
    let st = statement("x = 5").unwrap();
    assert!(st.float_text().is_none());
    let st = statement("x < 1.25").unwrap();
    assert_eq!(st.float_text().map(|t| t.as_str()), Some("1.25"));
}
