//! Ordering and equality of tagged values.
//!
//! Two values compare only when their tags match; a tag mismatch has no
//! ordering, and every relational operator evaluates to false over it.
//! Matching integers compare as signed 64-bit numbers, matching strings
//! byte-wise (equivalently, codepoint-wise), and matching doubles follow
//! IEEE-754: a NaN is unordered against everything, and the two zeroes
//! are equal.  The double ordering is defined here over bit patterns:
//! sign aside, the IEEE encoding orders doubles exactly as their
//! magnitude bits order as integers.

use core::cmp::Ordering;
use vstd::prelude::*;

use crate::values::SimpleType;
use crate::values::SimpleTypeDef;

verus! {

/// The magnitude bits of a double: everything but the sign.
pub open spec fn f64_mag(b: u64) -> u64 {
    b & 0x7FFFFFFFFFFFFFFF
}

/// Whether the sign bit of a double is set.
pub open spec fn f64_is_neg(b: u64) -> bool {
    b & 0x8000000000000000 != 0
}

/// Whether a bit pattern encodes a NaN: all exponent bits set and a
/// non-zero mantissa, i.e. a magnitude above that of infinity.
pub open spec fn f64_is_nan(b: u64) -> bool {
    f64_mag(b) > 0x7FF0000000000000
}

/// The rank of a non-NaN double on the number line, as an integer:
/// magnitude bits, negated when the sign bit is set.  Both zeroes rank
/// zero; otherwise ranks order bit patterns exactly as IEEE-754 orders
/// the doubles they encode.
pub open spec fn f64_key(b: u64) -> int {
    if f64_is_neg(b) {
        -(f64_mag(b) as int)
    } else {
        f64_mag(b) as int
    }
}

/// IEEE-754 comparison of two doubles given as bit patterns: no
/// ordering when either is NaN, the ranking of the patterns otherwise.
pub open spec fn f64_cmp(a: u64, b: u64) -> Option<Ordering> {
    if f64_is_nan(a) || f64_is_nan(b) {
        None
    } else if f64_key(a) < f64_key(b) {
        Some(Ordering::Less)
    } else if f64_key(a) > f64_key(b) {
        Some(Ordering::Greater)
    } else {
        Some(Ordering::Equal)
    }
}

/// IEEE-754 equality of two doubles given as bit patterns: never true
/// of a NaN, true of the two zeroes.
pub open spec fn f64_eq(a: u64, b: u64) -> bool {
    !f64_is_nan(a) && !f64_is_nan(b) && f64_key(a) == f64_key(b)
}

/// Compares two doubles by bit pattern, following IEEE-754.
pub fn f64_bits_cmp(a: u64, b: u64) -> (r: Option<Ordering>)
    ensures
        r == f64_cmp(a, b),
{
    let ma = a & 0x7FFFFFFFFFFFFFFFu64;
    let mb = b & 0x7FFFFFFFFFFFFFFFu64;
    if ma > 0x7FF0000000000000u64 || mb > 0x7FF0000000000000u64 {
        return None;
    }
    let na = a & 0x8000000000000000u64 != 0;
    let nb = b & 0x8000000000000000u64 != 0;
    if !na && !nb {
        if ma < mb {
            Some(Ordering::Less)
        } else if ma > mb {
            Some(Ordering::Greater)
        } else {
            Some(Ordering::Equal)
        }
    } else if na && nb {
        if ma > mb {
            Some(Ordering::Less)
        } else if ma < mb {
            Some(Ordering::Greater)
        } else {
            Some(Ordering::Equal)
        }
    } else if na {
        if ma == 0 && mb == 0 {
            Some(Ordering::Equal)
        } else {
            Some(Ordering::Less)
        }
    } else {
        if ma == 0 && mb == 0 {
            Some(Ordering::Equal)
        } else {
            Some(Ordering::Greater)
        }
    }
}

/// Lexicographic, byte-wise ordering of two byte sequences.
pub open spec fn lex_cmp_bytes(a: Seq<u8>, b: Seq<u8>) -> Ordering
    decreases a.len(),
{
    if a.len() == 0 && b.len() == 0 {
        Ordering::Equal
    } else if a.len() == 0 {
        Ordering::Less
    } else if b.len() == 0 {
        Ordering::Greater
    } else if a[0] < b[0] {
        Ordering::Less
    } else if a[0] > b[0] {
        Ordering::Greater
    } else {
        lex_cmp_bytes(a.drop_first(), b.drop_first())
    }
}

/// Two byte sequences order as equal exactly when they are the same,
/// and swapping them mirrors the ordering.
pub proof fn lemma_lex_antisym(a: Seq<u8>, b: Seq<u8>)
    ensures
        lex_cmp_bytes(a, b) == Ordering::Equal <==> a == b,
        lex_cmp_bytes(a, b) == Ordering::Less <==> lex_cmp_bytes(b, a) == Ordering::Greater,
    decreases a.len(),
{
    if a.len() == 0 && b.len() == 0 {
        assert(a =~= b);
    } else if a.len() > 0 && b.len() > 0 && a[0] == b[0] {
        lemma_lex_antisym(a.drop_first(), b.drop_first());
        if a.drop_first() == b.drop_first() && a[0] == b[0] {
            assert forall|i: int| 0 <= i < a.len() implies a[i] == b[i] by {
                if i > 0 {
                    assert(a[i] == a.drop_first()[i - 1]);
                    assert(b[i] == b.drop_first()[i - 1]);
                }
            }
            assert(a =~= b);
        }
        if a == b {
            assert(a.drop_first() =~= b.drop_first());
        }
    } else {
        if a == b {
            assert(a.len() == b.len());
            if a.len() > 0 {
                assert(a[0] == b[0]);
            }
        }
    }
}

/// Compares the tails of two byte vectors from a position on,
/// byte-wise.
fn lex_cmp_from(a: &Vec<u8>, b: &Vec<u8>, i: usize) -> (r: Ordering)
    requires
        i <= a@.len(),
        i <= b@.len(),
    ensures
        r == lex_cmp_bytes(a@.skip(i as int), b@.skip(i as int)),
    decreases a@.len() - i,
{
    let ghost sa = a@.skip(i as int);
    let ghost sb = b@.skip(i as int);
    if i == a.len() && i == b.len() {
        Ordering::Equal
    } else if i == a.len() {
        Ordering::Less
    } else if i == b.len() {
        Ordering::Greater
    } else {
        proof {
            assert(sa[0] == a@[i as int]);
            assert(sb[0] == b@[i as int]);
        }
        if a[i] < b[i] {
            Ordering::Less
        } else if a[i] > b[i] {
            Ordering::Greater
        } else {
            let r = lex_cmp_from(a, b, i + 1);
            proof {
                assert(sa.drop_first() =~= a@.skip(i + 1));
                assert(sb.drop_first() =~= b@.skip(i + 1));
            }
            r
        }
    }
}

/// Whether two byte vectors hold the same bytes.
fn bytes_eq(a: &Vec<u8>, b: &Vec<u8>) -> (r: bool)
    ensures
        r == (a@ == b@),
{
    if a.len() != b.len() {
        return false;
    }
    let n = a.len();
    let mut i: usize = 0;
    while i < n
        invariant
            n == a@.len() == b@.len(),
            i <= n,
            forall|k: int| 0 <= k < i ==> a@[k] == b@[k],
        decreases n - i,
    {
        if a[i] != b[i] {
            return false;
        }
        i = i + 1;
    }
    proof {
        assert(a@ =~= b@);
    }
    true
}

/// How two tagged values compare: no ordering across tags or over a
/// malformed numeric encoding, the tag's own ordering otherwise.
pub open spec fn cmp_spec(a: SimpleType, b: SimpleType) -> Option<Ordering> {
    match (a.otype, b.otype) {
        (SimpleTypeDef::Int, SimpleTypeDef::Int) => {
            if a.value@.len() == 8 && b.value@.len() == 8 {
                if a.int_val() < b.int_val() {
                    Some(Ordering::Less)
                } else if a.int_val() > b.int_val() {
                    Some(Ordering::Greater)
                } else {
                    Some(Ordering::Equal)
                }
            } else {
                None
            }
        },
        (SimpleTypeDef::Float, SimpleTypeDef::Float) => {
            if a.value@.len() == 8 && b.value@.len() == 8 {
                f64_cmp(a.float_bits(), b.float_bits())
            } else {
                None
            }
        },
        (SimpleTypeDef::String, SimpleTypeDef::String) => Some(
            lex_cmp_bytes(a.value@, b.value@),
        ),
        _ => None,
    }
}

/// Whether two tagged values hold the same content: false across tags,
/// the tag's own equality otherwise.  Under the `Float` tag this is
/// IEEE-754 equality: a NaN equals nothing, the two zeroes are equal.
pub open spec fn eq_spec(a: SimpleType, b: SimpleType) -> bool {
    match (a.otype, b.otype) {
        (SimpleTypeDef::Int, SimpleTypeDef::Int) => a.value@.len() == 8 && b.value@.len() == 8
            && a.int_val() == b.int_val(),
        (SimpleTypeDef::Float, SimpleTypeDef::Float) => a.value@.len() == 8 && b.value@.len() == 8
            && f64_eq(a.float_bits(), b.float_bits()),
        (SimpleTypeDef::String, SimpleTypeDef::String) => a.value@ == b.value@,
        _ => false,
    }
}

impl PartialEq for SimpleType {
    /// Content equality, tag-aware: a tag mismatch is never equal, and
    /// matching tags compare by decoded value.
    fn eq(&self, other: &SimpleType) -> (r: bool) {
        match (self.otype, other.otype) {
            (SimpleTypeDef::Int, SimpleTypeDef::Int) => {
                if self.value.len() == 8 && other.value.len() == 8 {
                    self.decode_int() == other.decode_int()
                } else {
                    false
                }
            },
            (SimpleTypeDef::Float, SimpleTypeDef::Float) => {
                if self.value.len() == 8 && other.value.len() == 8 {
                    matches!(
                        f64_bits_cmp(self.decode_float_bits(), other.decode_float_bits()),
                        Some(Ordering::Equal)
                    )
                } else {
                    false
                }
            },
            (SimpleTypeDef::String, SimpleTypeDef::String) => bytes_eq(&self.value, &other.value),
            _ => false,
        }
    }
}

impl vstd::std_specs::cmp::PartialEqSpecImpl for SimpleType {
    open spec fn obeys_eq_spec() -> bool {
        true
    }

    open spec fn eq_spec(&self, other: &SimpleType) -> bool {
        eq_spec(*self, *other)
    }
}

impl PartialOrd for SimpleType {
    /// The partial ordering of two tagged values: none across tags,
    /// the tag's own ordering otherwise.
    fn partial_cmp(&self, other: &SimpleType) -> (r: Option<Ordering>) {
        match (self.otype, other.otype) {
            (SimpleTypeDef::Int, SimpleTypeDef::Int) => {
                if self.value.len() == 8 && other.value.len() == 8 {
                    let x = self.decode_int();
                    let y = other.decode_int();
                    if x < y {
                        Some(Ordering::Less)
                    } else if x > y {
                        Some(Ordering::Greater)
                    } else {
                        Some(Ordering::Equal)
                    }
                } else {
                    None
                }
            },
            (SimpleTypeDef::Float, SimpleTypeDef::Float) => {
                if self.value.len() == 8 && other.value.len() == 8 {
                    f64_bits_cmp(self.decode_float_bits(), other.decode_float_bits())
                } else {
                    None
                }
            },
            (SimpleTypeDef::String, SimpleTypeDef::String) => {
                proof {
                    assert(self.value@.skip(0) =~= self.value@);
                    assert(other.value@.skip(0) =~= other.value@);
                }
                Some(lex_cmp_from(&self.value, &other.value, 0))
            },
            _ => None,
        }
    }
}

impl vstd::std_specs::cmp::PartialOrdSpecImpl for SimpleType {
    open spec fn obeys_partial_cmp_spec() -> bool {
        true
    }

    open spec fn partial_cmp_spec(&self, other: &SimpleType) -> Option<Ordering> {
        cmp_spec(*self, *other)
    }
}

} // verus!
