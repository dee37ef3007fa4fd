//! Tagged values with their canonical byte encoding.
//!
//! A [`SimpleType`] pairs a type tag with the canonical encoding of one
//! value: a big-endian two's-complement 64-bit integer, the big-endian
//! bytes of an IEEE-754 double, or the UTF-8 bytes of a string.  The
//! library never holds a native floating-point number: a double travels
//! as its 64-bit pattern, and everything the store needs of it (ordering,
//! equality, the encoding) is defined over that pattern.

use vstd::prelude::*;
use vstd::string::StrSliceExecFns;
use vstd::utf8::decode_utf8;
use vstd::utf8::encode_utf8;
use vstd::utf8::valid_utf8;

verus! {

/// The closed set of types a slot can be locked to.
#[derive(Debug, Clone, Copy, PartialEq, Eq, Structural)]
pub enum SimpleTypeDef {
    Int,
    Float,
    String,
}

/// One tagged value: a type tag and the canonical encoding of the value.
#[derive(Debug)]
pub struct SimpleType {
    pub otype: SimpleTypeDef,
    pub value: Vec<u8>,
}

/// The low byte of a 64-bit word.
pub open spec fn lo8(x: u64) -> u8 {
    (x & 0xFF) as u8
}

/// The canonical big-endian encoding of a 64-bit word: eight bytes,
/// most significant first.
pub open spec fn u64_to_be(x: u64) -> Seq<u8> {
    seq![
        lo8(x >> 56),
        lo8(x >> 48),
        lo8(x >> 40),
        lo8(x >> 32),
        lo8(x >> 24),
        lo8(x >> 16),
        lo8(x >> 8),
        lo8(x),
    ]
}

/// The 64-bit word read from eight big-endian bytes.
pub open spec fn u64_from_be(s: Seq<u8>) -> u64
    recommends
        s.len() == 8,
{
    ((s[0] as u64) << 56) | ((s[1] as u64) << 48) | ((s[2] as u64) << 40) | ((s[3] as u64) << 32)
        | ((s[4] as u64) << 24) | ((s[5] as u64) << 16) | ((s[6] as u64) << 8) | (s[7] as u64)
}

/// Reading back the big-endian encoding of a word gives the word.
pub proof fn lemma_u64_be_round_trip(x: u64)
    ensures
        u64_from_be(u64_to_be(x)) == x,
{
    assert(((x >> 56 & 0xFF) as u8 as u64) << 56 | ((x >> 48 & 0xFF) as u8 as u64) << 48 | ((x
        >> 40 & 0xFF) as u8 as u64) << 40 | ((x >> 32 & 0xFF) as u8 as u64) << 32 | ((x >> 24
        & 0xFF) as u8 as u64) << 24 | ((x >> 16 & 0xFF) as u8 as u64) << 16 | ((x >> 8
        & 0xFF) as u8 as u64) << 8 | (x & 0xFF) as u8 as u64 == x) by (bit_vector);
}

/// The signed reading of a 64-bit word: two's complement.
pub open spec fn i64_of_word(u: u64) -> int {
    if u < 0x8000000000000000 {
        u as int
    } else {
        u as int - 0x10000000000000000
    }
}

/// The 64-bit word whose signed reading is the given integer.
pub open spec fn word_of_i64(x: int) -> u64
    recommends
        -0x8000000000000000 <= x < 0x8000000000000000,
{
    if x >= 0 {
        x as u64
    } else {
        (x + 0x10000000000000000) as u64
    }
}

/// The signed reading inverts the word construction over the `i64` range.
pub proof fn lemma_i64_word_round_trip(x: int)
    requires
        -0x8000000000000000 <= x < 0x8000000000000000,
    ensures
        i64_of_word(word_of_i64(x)) == x,
{
}

impl SimpleType {
    /// Whether the byte encoding matches the tag: eight bytes for either
    /// numeric tag, valid UTF-8 for a string.
    pub open spec fn wf(self) -> bool {
        match self.otype {
            SimpleTypeDef::Int => self.value@.len() == 8,
            SimpleTypeDef::Float => self.value@.len() == 8,
            SimpleTypeDef::String => valid_utf8(self.value@),
        }
    }

    /// The integer a value with the `Int` tag encodes.
    pub open spec fn int_val(self) -> int
        recommends
            self.otype == SimpleTypeDef::Int,
            self.wf(),
    {
        i64_of_word(u64_from_be(self.value@))
    }

    /// The bit pattern of the double a value with the `Float` tag encodes.
    pub open spec fn float_bits(self) -> u64
        recommends
            self.otype == SimpleTypeDef::Float,
            self.wf(),
    {
        u64_from_be(self.value@)
    }

    /// The text a value with the `String` tag encodes.
    pub open spec fn text(self) -> Seq<char>
        recommends
            self.otype == SimpleTypeDef::String,
            self.wf(),
    {
        decode_utf8(self.value@)
    }

    /// Builds the `Int` value encoding the given integer.
    pub fn from_int(val: i64) -> (r: SimpleType)
        ensures
            r.wf(),
            r.otype == SimpleTypeDef::Int,
            r.int_val() == val as int,
    {
        let word: u64 = if val >= 0 {
            val as u64
        } else {
            ((val as i128) + 0x10000000000000000i128) as u64
        };
        proof {
            lemma_u64_be_round_trip(word);
        }
        SimpleType { otype: SimpleTypeDef::Int, value: be_bytes(word) }
    }

    /// Builds the `Float` value encoding the double with the given bit
    /// pattern.
    pub fn from_float_bits(bits: u64) -> (r: SimpleType)
        ensures
            r.wf(),
            r.otype == SimpleTypeDef::Float,
            r.float_bits() == bits,
    {
        proof {
            lemma_u64_be_round_trip(bits);
        }
        SimpleType { otype: SimpleTypeDef::Float, value: be_bytes(bits) }
    }

    /// Builds the `String` value encoding the given text.
    pub fn from_string(val: &str) -> (r: SimpleType)
        ensures
            r.wf(),
            r.otype == SimpleTypeDef::String,
            r.text() == val@,
            r.value@ == encode_utf8(val@),
    {
        proof {
            broadcast use vstd::utf8::encode_utf8_valid_utf8;
            broadcast use vstd::utf8::encode_utf8_decode_utf8;

        }
        SimpleType { otype: SimpleTypeDef::String, value: val.as_bytes_vec() }
    }

    /// Reads the integer back out of an `Int` value.
    pub fn decode_int(&self) -> (r: i64)
        requires
            self.wf(),
            self.otype == SimpleTypeDef::Int,
        ensures
            r as int == self.int_val(),
    {
        let word = be_word(&self.value);
        if word < 0x8000000000000000u64 {
            word as i64
        } else {
            ((word as i128) - 0x10000000000000000i128) as i64
        }
    }

    /// Reads the bit pattern back out of a `Float` value.
    pub fn decode_float_bits(&self) -> (r: u64)
        requires
            self.wf(),
            self.otype == SimpleTypeDef::Float,
        ensures
            r == self.float_bits(),
    {
        be_word(&self.value)
    }
}

/// The eight big-endian bytes of a word, as a vector.
fn be_bytes(x: u64) -> (r: Vec<u8>)
    ensures
        r@ == u64_to_be(x),
{
    let mut v: Vec<u8> = Vec::new();
    v.push(((x >> 56) & 0xFF) as u8);
    v.push(((x >> 48) & 0xFF) as u8);
    v.push(((x >> 40) & 0xFF) as u8);
    v.push(((x >> 32) & 0xFF) as u8);
    v.push(((x >> 24) & 0xFF) as u8);
    v.push(((x >> 16) & 0xFF) as u8);
    v.push(((x >> 8) & 0xFF) as u8);
    v.push((x & 0xFF) as u8);
    proof {
        assert(v@ =~= u64_to_be(x));
    }
    v
}

/// The word read from an eight-byte big-endian encoding.
fn be_word(v: &Vec<u8>) -> (r: u64)
    requires
        v@.len() == 8,
    ensures
        r == u64_from_be(v@),
{
    ((v[0] as u64) << 56) | ((v[1] as u64) << 48) | ((v[2] as u64) << 40) | ((v[3] as u64) << 32)
        | ((v[4] as u64) << 24) | ((v[5] as u64) << 16) | ((v[6] as u64) << 8) | (v[7] as u64)
}

} // verus!
