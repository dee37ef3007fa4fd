//! The single-slot, type-locked store.
//!
//! A [`Database`] holds at most one value and at most one type lock,
//! and keeps them consistent: whenever a value is present, its tag is
//! the locked type.  The store starts empty; locking a type always
//! clears the value; setting the value succeeds exactly when its tag
//! matches the lock; comparing reads the slot without changing it and
//! yields false whenever no ordering can be established.

use core::cmp::Ordering;
use vstd::prelude::*;

use crate::order::cmp_spec;
use crate::order::eq_spec;
use crate::values::SimpleType;
use crate::values::SimpleTypeDef;

verus! {

/// The relational operators a comparison command can carry.
#[derive(Debug, Clone, Copy, PartialEq, Eq, Structural)]
pub enum Operation {
    Gt,
    Lt,
    Gte,
    Lte,
    Eq,
}

/// The errors a store mutation can report.
#[derive(Debug, Clone, Copy, PartialEq, Eq, Structural)]
pub enum DatabaseError {
    TypeError,
}

/// The single slot: an optional stored value and an optional type lock.
#[derive(Debug)]
pub struct Database {
    pub v: Option<SimpleType>,
    pub t: Option<SimpleTypeDef>,
}

/// How one relational operator reads the comparison of the stored
/// value against an operand: the four order operators go through the
/// partial ordering, so each is false whenever no ordering exists;
/// equality goes through content equality.
pub open spec fn eval_op(dbval: SimpleType, v: SimpleType, op: Operation) -> bool {
    match op {
        Operation::Gt => cmp_spec(dbval, v) == Some(Ordering::Greater),
        Operation::Gte => cmp_spec(dbval, v) == Some(Ordering::Greater) || cmp_spec(dbval, v)
            == Some(Ordering::Equal),
        Operation::Lt => cmp_spec(dbval, v) == Some(Ordering::Less),
        Operation::Lte => cmp_spec(dbval, v) == Some(Ordering::Less) || cmp_spec(dbval, v)
            == Some(Ordering::Equal),
        Operation::Eq => eq_spec(dbval, v),
    }
}

impl Database {
    /// The slot's consistency: a stored value is well formed and its
    /// tag is the locked type.
    pub open spec fn wf(self) -> bool {
        match self.v {
            Some(val) => val.wf() && self.t == Some(val.otype),
            None => true,
        }
    }

    /// What a comparison against the slot yields: false when no value
    /// is stored, the operator's reading otherwise.
    pub open spec fn compare_spec(self, v: SimpleType, op: Operation) -> bool {
        match self.v {
            Some(dbval) => eval_op(dbval, v, op),
            None => false,
        }
    }

    /// Creates the store in its initial state: no value, no type lock.
    pub fn new() -> (r: Database)
        ensures
            r.wf(),
            r.v is None,
            r.t is None,
    {
        Database { v: None, t: None }
    }

    /// Locks the slot to a type.  This always succeeds and always
    /// clears the stored value, even when the type does not change.
    pub fn set_type(&mut self, def: SimpleTypeDef)
        ensures
            final (self).wf(),
            final (self).t == Some(def),
            final (self).v is None,
    {
        self.t = Some(def);
        self.v = None;
    }

    /// Stores a value.  This succeeds exactly when a type is locked
    /// and the value's tag matches it; otherwise it reports a type
    /// error and leaves the store unchanged.
    pub fn set(&mut self, v: SimpleType) -> (r: Result<(), DatabaseError>)
        requires
            old(self).wf(),
            v.wf(),
        ensures
            final (self).wf(),
            r is Ok <==> old(self).t == Some(v.otype),
            r is Err ==> r == Err::<(), DatabaseError>(DatabaseError::TypeError) && *final (self)
                == *old(self),
            r is Ok ==> final (self).v == Some(v) && final (self).t == old(self).t,
    {
        match self.t {
            None => Err(DatabaseError::TypeError),
            Some(existing) => {
                if existing != v.otype {
                    Err(DatabaseError::TypeError)
                } else {
                    self.v = Some(v);
                    Ok(())
                }
            },
        }
    }

    /// Reads the slot.
    pub fn get(&self) -> (r: &Option<SimpleType>)
        ensures
            r == &self.v,
    {
        &self.v
    }

    /// Compares the stored value against an operand under one
    /// relational operator.  The store is left unchanged; the result
    /// is false when no value is stored, when the tags differ, and
    /// whenever IEEE-754 leaves the operands unordered.
    pub fn compare(&mut self, comparison: SimpleType, operation: Operation) -> (r: bool)
        requires
            old(self).wf(),
        ensures
            *final (self) == *old(self),
            r == old(self).compare_spec(comparison, operation),
    {
        match &self.v {
            Some(dbval) => {
                let result = match operation {
                    Operation::Gt => matches!(
                        dbval.partial_cmp(&comparison),
                        Some(Ordering::Greater)
                    ),
                    Operation::Gte => matches!(
                        dbval.partial_cmp(&comparison),
                        Some(Ordering::Greater) | Some(Ordering::Equal)
                    ),
                    Operation::Lte => matches!(
                        dbval.partial_cmp(&comparison),
                        Some(Ordering::Less) | Some(Ordering::Equal)
                    ),
                    Operation::Lt => matches!(dbval.partial_cmp(&comparison), Some(Ordering::Less)),
                    Operation::Eq => *dbval == comparison,
                };
                result
            },
            None => false,
        }
    }
}

} // verus!
