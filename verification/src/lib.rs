//! A single-slot, type-locked value store.
//!
//! The store holds at most one value at a time.  A client first locks the
//! slot to one of three types (integer, floating point, string), then may
//! set the value, compare it against a literal, or read it back.  Values
//! are kept in a canonical byte encoding: big-endian for the numeric tags,
//! raw UTF-8 for strings.
//!
//! The modules split the work along the protocol pipeline: [`values`]
//! defines the tagged values with their encoding and ordering, [`db`] the
//! slot state machine, [`parser`] the line grammar, [`commands`] the
//! dispatcher that turns one parsed command into one response, and
//! [`laws`] states the properties that tie them together.

pub mod commands;
pub mod db;
pub mod laws;
pub mod order;
pub mod parser;
pub mod text;
pub mod values;

pub use values::SimpleType;
pub use values::SimpleTypeDef;
