//! The slot state machine.

use slotdb::db::Database;
use slotdb::db::DatabaseError;
use slotdb::db::Operation;
use slotdb::values::SimpleType;
use slotdb::values::SimpleTypeDef;

fn from_float(x: f64) -> SimpleType {
    SimpleType::from_float_bits(x.to_bits())
}

#[test]
fn test_db_compare() {
    let mut db = Database::new();
    let four = SimpleType::from_int(4);
    let six = SimpleType::from_int(6);

    assert!(db.set(SimpleType::from_int(5)).is_err());

    db.t = Some(SimpleTypeDef::Int);
    let _ = db.set(SimpleType::from_int(5));

    assert!(db.compare(four, Operation::Gte));
    let _ = six;
}

#[test]
fn test_set_type() {
    let mut db = Database::new();
    db.t = Some(SimpleTypeDef::Int);
    let s = SimpleType::from_int(1);
    db.set(s).expect("Error setting type");

    assert!(
        db.set(from_float(1.0)).is_err(),
        "was expecting a type error"
    );
}

#[test]
fn test_set_without_lock_is_type_error() {
    let mut db = Database::new();
    assert_eq!(
        db.set(SimpleType::from_int(1)),
        Err(DatabaseError::TypeError)
    );
    assert!(db.get().is_none());
}

#[test]
fn test_set_wrong_tag_is_type_error() {
    let mut db = Database::new();
    db.set_type(SimpleTypeDef::String);
    assert_eq!(
        db.set(SimpleType::from_int(1)),
        Err(DatabaseError::TypeError)
    );
    assert!(db.get().is_none());
    db.set(SimpleType::from_string("ok")).unwrap();
    assert!(db.get().is_some());
}

#[test]
fn test_set_type_always_clears() {
    let mut db = Database::new();
    db.set_type(SimpleTypeDef::Int);
    db.set(SimpleType::from_int(7)).unwrap();
    assert!(db.get().is_some());
    // Re-asserting the same type still clears the value.
    db.set_type(SimpleTypeDef::Int);
    assert!(db.get().is_none());
    db.set(SimpleType::from_int(7)).unwrap();
    db.set_type(SimpleTypeDef::Float);
    assert!(db.get().is_none());
}

#[test]
fn test_compare_empty_store_is_false() {
    let mut db = Database::new();
    for op in [
        Operation::Gt,
        Operation::Lt,
        Operation::Gte,
        Operation::Lte,
        Operation::Eq,
    ] {
        assert!(!db.compare(SimpleType::from_int(0), op));
    }
    // A type lock without a value behaves the same.
    db.set_type(SimpleTypeDef::Int);
    for op in [
        Operation::Gt,
        Operation::Lt,
        Operation::Gte,
        Operation::Lte,
        Operation::Eq,
    ] {
        assert!(!db.compare(SimpleType::from_int(0), op));
    }
}

#[test]
fn test_compare_mismatched_tag_is_false() {
    let mut db = Database::new();
    db.set_type(SimpleTypeDef::Int);
    db.set(SimpleType::from_int(5)).unwrap();
    for op in [
        Operation::Gt,
        Operation::Lt,
        Operation::Gte,
        Operation::Lte,
        Operation::Eq,
    ] {
        assert!(!db.compare(from_float(5.0), op));
        assert!(!db.compare(SimpleType::from_string("5"), op));
    }
}

#[test]
fn test_get_idempotent() {
    let mut db = Database::new();
    db.set_type(SimpleTypeDef::String);
    db.set(SimpleType::from_string("bacon")).unwrap();
    let first = db.get().as_ref().map(|v| v.display());
    let second = db.get().as_ref().map(|v| v.display());
    assert_eq!(first, second);
    assert_eq!(first, Some("string:bacon".to_string()));
}
