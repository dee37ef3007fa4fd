//! The full pipeline: a line in, a response out.
//!
//! Mirrors what a session does with each line: parse, convert a
//! floating-point literal's text to its bit pattern, dispatch, and
//! render the response.

use slotdb::commands::Response;
use slotdb::commands::respond;
use slotdb::commands::terminated;
use slotdb::db::Database;
use slotdb::parser::statement;
use slotdb::text::float_display;

fn run_line(db: &mut Database, line: &str) -> String {
    let parsed = statement(line).map(|raw| {
        let bits = raw.float_text().map(|t| t.parse::<f64>().unwrap().to_bits());
        raw.resolve(bits)
    });
    match respond(db, parsed) {
        Response::Text(s) => s,
        Response::FloatBits(b) => float_display(&f64::from_bits(b).to_string()),
    }
}

#[test]
fn test_terminated_appends_newline() {
    assert_eq!(terminated("ok".to_string()), "ok\n");
    assert_eq!(terminated(String::new()), "\n");
}

#[test]
fn scenario_int_set_get() {
    let mut db = Database::new();
    assert_eq!(run_line(&mut db, "type int"), "ok");
    assert_eq!(run_line(&mut db, "x = 5"), "ok");
    assert_eq!(run_line(&mut db, "x"), "int:5");
}

#[test]
fn scenario_int_float_type_error() {
    let mut db = Database::new();
    assert_eq!(run_line(&mut db, "type int"), "ok");
    assert_eq!(run_line(&mut db, "x = 4.5"), "type_error");
    assert_eq!(run_line(&mut db, "x"), "none");
}

#[test]
fn scenario_int_comparisons() {
    let mut db = Database::new();
    assert_eq!(run_line(&mut db, "type int"), "ok");
    assert_eq!(run_line(&mut db, "x = 5"), "ok");
    assert_eq!(run_line(&mut db, "x >= 4"), "true");
    assert_eq!(run_line(&mut db, "x < 4"), "false");
}

#[test]
fn scenario_string_equality() {
    let mut db = Database::new();
    assert_eq!(run_line(&mut db, "type string"), "ok");
    assert_eq!(run_line(&mut db, r#"x = "bacon""#), "ok");
    assert_eq!(run_line(&mut db, r#"x == "eggs""#), "false");
    assert_eq!(run_line(&mut db, r#"x == "bacon""#), "true");
}

#[test]
fn scenario_get_unset() {
    let mut db = Database::new();
    assert_eq!(run_line(&mut db, "x"), "none");
}

#[test]
fn scenario_parse_error() {
    let mut db = Database::new();
    assert_eq!(run_line(&mut db, "garbage !!!"), "parse_error");
    // A parse error touches nothing: the store still answers.
    assert_eq!(run_line(&mut db, "x"), "none");
}

#[test]
fn scenario_float_pipeline() {
    let mut db = Database::new();
    assert_eq!(run_line(&mut db, "type float"), "ok");
    assert_eq!(run_line(&mut db, "x = 1.5"), "ok");
    assert_eq!(run_line(&mut db, "x"), "float:1.5");
    assert_eq!(run_line(&mut db, "x > 1.0"), "true");
    assert_eq!(run_line(&mut db, "x == 1.5"), "true");
    assert_eq!(run_line(&mut db, "x < 1.0"), "false");
}

#[test]
fn scenario_type_relock_clears() {
    let mut db = Database::new();
    assert_eq!(run_line(&mut db, "type int"), "ok");
    assert_eq!(run_line(&mut db, "x = 5"), "ok");
    assert_eq!(run_line(&mut db, "type int"), "ok");
    assert_eq!(run_line(&mut db, "x"), "none");
    assert_eq!(run_line(&mut db, "type string"), "ok");
    assert_eq!(run_line(&mut db, "x"), "none");
}

#[test]
fn scenario_set_without_type() {
    let mut db = Database::new();
    assert_eq!(run_line(&mut db, "x = 5"), "type_error");
}

#[test]
fn scenario_string_display_with_spaces() {
    let mut db = Database::new();
    assert_eq!(run_line(&mut db, "type string"), "ok");
    assert_eq!(run_line(&mut db, r#"x = "this is a var""#), "ok");
    assert_eq!(run_line(&mut db, "x"), "string:this is a var");
}
