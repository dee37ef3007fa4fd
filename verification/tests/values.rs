//! Tagged values: construction, decoding, ordering, equality,
//! rendering.

use std::cmp::Ordering;

use slotdb::values::SimpleType;
use slotdb::values::SimpleTypeDef;

fn from_float(x: f64) -> SimpleType {
    SimpleType::from_float_bits(x.to_bits())
}

#[test]
fn test_fail_compare_diff_types() {
    let t = SimpleType::from_int(1);
    let s = from_float(1.0);

    assert_eq!(t.partial_cmp(&s), None);
}

#[test]
fn test_int_comparisons() {
    let t = SimpleType::from_int(1);
    let k = SimpleType::from_int(2);
    let z = SimpleType::from_int(1);

    assert!(k > t);
    assert!(t < k);
    assert!(z == t);
}

#[test]
fn test_float_comparisons() {
    let t = from_float(1.0);
    let k = from_float(2.0);
    let z = from_float(1.0);

    assert!(k > t);
    assert!(t < k);
    assert!(z == t);
}

#[test]
fn test_string_comparisons() {
    let t = SimpleType::from_string("bacon");
    let k = SimpleType::from_string("eggs");
    let z = SimpleType::from_string("bacon");

    assert!(k > t);
    assert!(t < k);
    assert!(z == t);
}

#[test]
fn test_compare_type() {
    assert!(SimpleTypeDef::Int == SimpleTypeDef::Int);
    assert!(SimpleTypeDef::Int != SimpleTypeDef::Float);
    assert!(SimpleTypeDef::Int != SimpleTypeDef::String);
}

#[test]
fn test_int_round_trip() {
    for x in [0i64, 1, -1, 5, -42, i64::MAX, i64::MIN] {
        assert_eq!(SimpleType::from_int(x).decode_int(), x);
    }
}

#[test]
fn test_float_round_trip() {
    for y in [0.0f64, -0.0, 1.5, -4.5, f64::INFINITY, f64::NEG_INFINITY, f64::NAN, 1.0e-310] {
        let bits = y.to_bits();
        assert_eq!(SimpleType::from_float_bits(bits).decode_float_bits(), bits);
    }
}

#[test]
fn test_string_round_trip() {
    for s in ["", "bacon", "You are a monkey", "caf\u{e9} \u{1F600}"] {
        assert_eq!(SimpleType::from_string(s).decode_string(), s);
    }
}

#[test]
fn test_float_order_matches_ieee() {
    let samples = [
        0.0f64,
        -0.0,
        1.0,
        2.0,
        -1.0,
        -2.0,
        1.5,
        f64::INFINITY,
        f64::NEG_INFINITY,
        f64::NAN,
        f64::MIN_POSITIVE,
        1.0e-310,
        -1.0e-310,
    ];
    for &x in &samples {
        for &y in &samples {
            let a = from_float(x);
            let b = from_float(y);
            assert_eq!(a.partial_cmp(&b), x.partial_cmp(&y), "cmp of {x} and {y}");
            assert_eq!(a == b, x == y, "eq of {x} and {y}");
        }
    }
}

#[test]
fn test_nan_equals_nothing() {
    let nan = from_float(f64::NAN);
    let one = from_float(1.0);
    assert!(nan != nan);
    assert!(nan != one);
    assert!(nan.partial_cmp(&nan).is_none());
    assert!(!(nan < one) && !(nan > one) && !(nan <= one) && !(nan >= one));
}

#[test]
fn test_zeroes_equal() {
    let pz = from_float(0.0);
    let nz = from_float(-0.0);
    assert!(pz == nz);
    assert_eq!(pz.partial_cmp(&nz), Some(Ordering::Equal));
}

#[test]
fn test_string_order_is_byte_wise() {
    assert!(SimpleType::from_string("a") < SimpleType::from_string("ab"));
    assert!(SimpleType::from_string("") < SimpleType::from_string("a"));
    // Multi-byte UTF-8 orders after ASCII, byte-wise and codepoint-wise alike.
    assert!(SimpleType::from_string("\u{e9}") > SimpleType::from_string("z"));
    assert_eq!(
        SimpleType::from_string("same").partial_cmp(&SimpleType::from_string("same")),
        Some(Ordering::Equal)
    );
}

#[test]
fn test_display_int() {
    assert_eq!(SimpleType::from_int(5).display(), "int:5");
    assert_eq!(SimpleType::from_int(-42).display(), "int:-42");
    assert_eq!(SimpleType::from_int(0).display(), "int:0");
    assert_eq!(
        SimpleType::from_int(i64::MIN).display(),
        "int:-9223372036854775808"
    );
}

#[test]
fn test_display_string() {
    assert_eq!(SimpleType::from_string("hello").display(), "string:hello");
    assert_eq!(SimpleType::from_string("").display(), "string:");
}

#[test]
fn test_float_display_wrap() {
    assert_eq!(slotdb::text::float_display("1.5"), "float:1.5");
}
