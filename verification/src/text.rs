//! Rendering values as text.
//!
//! A stored value reads back as `"<tag>:<decoded-value>"`.  The decimal
//! rendering of integers is defined and verified here; the text of a
//! string value is recovered from its UTF-8 bytes.  A double's decimal
//! rendering needs floating-point arithmetic, which stays outside this
//! library: callers format the bit pattern themselves and hand the
//! digits to [`float_display`].

use vstd::prelude::*;
use vstd::string::StrSliceExecFns;
use vstd::string::StringExecFns;
use vstd::string::StringSliceAdditionalSpecFns;
use vstd::utf8::valid_utf8;

use crate::values::SimpleType;
use crate::values::SimpleTypeDef;

verus! {

/// The decimal digit character for one digit value.
pub open spec fn spec_digit(d: int) -> char {
    if d == 0 {
        '0'
    } else if d == 1 {
        '1'
    } else if d == 2 {
        '2'
    } else if d == 3 {
        '3'
    } else if d == 4 {
        '4'
    } else if d == 5 {
        '5'
    } else if d == 6 {
        '6'
    } else if d == 7 {
        '7'
    } else if d == 8 {
        '8'
    } else {
        '9'
    }
}

/// The decimal rendering of a natural number, without leading zeroes.
pub open spec fn dec_nat(n: nat) -> Seq<char>
    decreases n,
{
    if n < 10 {
        seq![spec_digit(n as int)]
    } else {
        dec_nat(n / 10) + seq![spec_digit((n % 10) as int)]
    }
}

/// The decimal rendering of an integer: a minus sign before the
/// magnitude when negative.
pub open spec fn dec_int(x: int) -> Seq<char> {
    if x < 0 {
        seq!['-'] + dec_nat((-x) as nat)
    } else {
        dec_nat(x as nat)
    }
}

/// Relies on `String::push`: appends exactly the given character.
#[verifier::external_body]
pub(crate) fn push_char(s: &mut String, c: char)
    ensures
        final (s)@ == old(s)@ + seq![c],
{
    s.push(c);
}

/// Relies on `core::str::from_utf8`: it succeeds exactly on valid
/// UTF-8, returning the string slice whose UTF-8 bytes are the input.
#[verifier::external_body]
fn utf8_str(v: &[u8]) -> (r: Option<&str>)
    ensures
        r is Some <==> valid_utf8(v@),
        r matches Some(s) ==> s.spec_bytes() == v@,
{
    core::str::from_utf8(v).ok()
}

/// The digit character for one digit value.
fn digit_char(d: u64) -> (r: char)
    requires
        d < 10,
    ensures
        r == spec_digit(d as int),
{
    if d == 0 {
        '0'
    } else if d == 1 {
        '1'
    } else if d == 2 {
        '2'
    } else if d == 3 {
        '3'
    } else if d == 4 {
        '4'
    } else if d == 5 {
        '5'
    } else if d == 6 {
        '6'
    } else if d == 7 {
        '7'
    } else if d == 8 {
        '8'
    } else {
        '9'
    }
}

/// Renders a natural number in decimal.
fn u64_to_dec(n: u64) -> (r: String)
    ensures
        r@ == dec_nat(n as nat),
    decreases n,
{
    if n < 10 {
        let mut s = String::new();
        push_char(&mut s, digit_char(n));
        s
    } else {
        let mut s = u64_to_dec(n / 10);
        push_char(&mut s, digit_char(n % 10));
        s
    }
}

/// Renders a signed integer in decimal.
pub fn i64_to_dec(x: i64) -> (r: String)
    ensures
        r@ == dec_int(x as int),
{
    if x >= 0 {
        u64_to_dec(x as u64)
    } else {
        let mag: u64 = (-(x as i128)) as u64;
        let mut s = String::new();
        push_char(&mut s, '-');
        let digits = u64_to_dec(mag);
        s.append(digits.as_str());
        s
    }
}

/// What a non-float value reads back as: the tag's name, a colon, and
/// the decoded value.
pub open spec fn display_model(v: SimpleType) -> Seq<char>
    recommends
        v.wf(),
        v.otype != SimpleTypeDef::Float,
{
    match v.otype {
        SimpleTypeDef::Int => "int:"@ + dec_int(v.int_val()),
        SimpleTypeDef::String => "string:"@ + v.text(),
        SimpleTypeDef::Float => Seq::empty(),
    }
}

/// What a float value reads back as, once its bit pattern has been
/// rendered as decimal text by the caller.
pub fn float_display(repr: &str) -> (r: String)
    ensures
        r@ == "float:"@ + repr@,
{
    let mut s = String::from_str("float:");
    s.append(repr);
    s
}

impl SimpleType {
    /// Reads the text back out of a `String` value.
    pub fn decode_string(&self) -> (r: String)
        requires
            self.wf(),
            self.otype == SimpleTypeDef::String,
        ensures
            r@ == self.text(),
    {
        match utf8_str(self.value.as_slice()) {
            Some(text) => {
                proof {
                    broadcast use vstd::utf8::encode_utf8_decode_utf8;

                }
                String::from_str(text)
            },
            None => vstd::pervasive::unreached(),
        }
    }

    /// Renders the value as `"<tag>:<decoded-value>"`.  A float's
    /// decoded value cannot be rendered here; see [`float_display`].
    pub fn display(&self) -> (r: String)
        requires
            self.wf(),
            self.otype != SimpleTypeDef::Float,
        ensures
            r@ == display_model(*self),
    {
        match self.otype {
            SimpleTypeDef::Int => {
                let mut s = String::from_str("int:");
                let digits = i64_to_dec(self.decode_int());
                s.append(digits.as_str());
                s
            },
            SimpleTypeDef::String => {
                match utf8_str(self.value.as_slice()) {
                    Some(text) => {
                        proof {
                            broadcast use vstd::utf8::encode_utf8_decode_utf8;

                        }
                        let mut s = String::from_str("string:");
                        s.append(text);
                        s
                    },
                    None => vstd::pervasive::unreached(),
                }
            },
            SimpleTypeDef::Float => vstd::pervasive::unreached(),
        }
    }
}

} // verus!
