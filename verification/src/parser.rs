//! The line grammar.
//!
//! One client line is one command: a type declaration (`type int`,
//! `type float`, `type string`), an assignment of the variable to an
//! integer, floating-point or double-quoted string literal, a
//! comparison of the variable against a literal under `>`, `<`, `>=`,
//! `<=` or `==`, or a bare variable reference meaning "get".  The
//! store has exactly one addressable variable, so the name itself is
//! not interpreted.  Anything else is a parse error.
//!
//! The grammar is stated by the `sp_*` specification functions, each a
//! rule over the line's characters and a position; the executable
//! parser mirrors them rule for rule.  A floating-point literal is
//! kept as its text: turning decimal text into a double needs
//! floating-point arithmetic, which stays outside this library, so the
//! caller converts the text and hands the bit pattern to
//! [`RawStatement::resolve`].

use vstd::prelude::*;
use vstd::string::StrSliceExecFns;
use vstd::string::StringExecFns;

use crate::commands::CommandError;
use crate::commands::UselessStatement;
use crate::commands::cmd_wf;
use crate::db::Operation;
use crate::text::push_char;
use crate::values::SimpleType;
use crate::values::SimpleTypeDef;

verus! {

/// A literal as parsed: an integer, the text of a floating-point
/// literal, or the contents of a string literal.
#[derive(Debug)]
pub enum RawValue {
    Int(i64),
    Float(String),
    Str(String),
}

/// A command as parsed, literals still raw.
#[derive(Debug)]
pub enum RawStatement {
    SetType(SimpleTypeDef),
    SetVar(RawValue),
    Comparison(RawValue, Operation),
    Get,
}

/// The abstract reading of a [`RawValue`].
pub ghost enum LitModel {
    Int(int),
    Float(Seq<char>),
    Str(Seq<char>),
}

/// The abstract reading of a [`RawStatement`].
pub ghost enum StmtModel {
    SetType(SimpleTypeDef),
    SetVar(LitModel),
    Comparison(LitModel, Operation),
    Get,
}

/// The abstract reading of a [`RawValue`].
pub open spec fn lit_model(v: RawValue) -> LitModel {
    match v {
        RawValue::Int(i) => LitModel::Int(i as int),
        RawValue::Float(t) => LitModel::Float(t@),
        RawValue::Str(t) => LitModel::Str(t@),
    }
}

/// The abstract reading of a [`RawStatement`].
pub open spec fn stmt_model(st: RawStatement) -> StmtModel {
    match st {
        RawStatement::SetType(d) => StmtModel::SetType(d),
        RawStatement::SetVar(v) => StmtModel::SetVar(lit_model(v)),
        RawStatement::Comparison(v, op) => StmtModel::Comparison(lit_model(v), op),
        RawStatement::Get => StmtModel::Get,
    }
}

/// A decimal digit.
pub open spec fn is_digit(c: char) -> bool {
    '0' as u32 <= c as u32 <= '9' as u32
}

/// A character that can start an identifier.
pub open spec fn is_ident_start(c: char) -> bool {
    ('a' as u32 <= c as u32 <= 'z' as u32) || ('A' as u32 <= c as u32 <= 'Z' as u32) || c == '_'
}

/// A character that can continue an identifier.
pub open spec fn is_ident_char(c: char) -> bool {
    is_ident_start(c) || is_digit(c)
}

/// The numeric value of a digit character.
pub open spec fn digit_of(c: char) -> int {
    c as u32 - '0' as u32
}

/// The first position at or after `i` holding no space.
pub open spec fn sp_spaces(s: Seq<char>, i: int) -> int
    decreases s.len() - i
        when 0 <= i <= s.len()
{
    if i < s.len() && s[i] == ' ' {
        sp_spaces(s, i + 1)
    } else {
        i
    }
}

/// The end of the run of identifier characters starting at `i`.
pub open spec fn sp_ident_end(s: Seq<char>, i: int) -> int
    decreases s.len() - i
        when 0 <= i <= s.len()
{
    if i < s.len() && is_ident_char(s[i]) {
        sp_ident_end(s, i + 1)
    } else {
        i
    }
}

/// An identifier at `i`: a starting character, then its run.  Yields
/// the position after it.
pub open spec fn sp_ident(s: Seq<char>, i: int) -> Option<int>
    recommends
        0 <= i <= s.len(),
{
    if i < s.len() && is_ident_start(s[i]) {
        Some(sp_ident_end(s, i + 1))
    } else {
        None
    }
}

/// The end of the run of digits starting at `i`.
pub open spec fn sp_digits_end(s: Seq<char>, i: int) -> int
    decreases s.len() - i
        when 0 <= i <= s.len()
{
    if i < s.len() && is_digit(s[i]) {
        sp_digits_end(s, i + 1)
    } else {
        i
    }
}

/// The number the digits `s[i..j)` write in decimal.
pub open spec fn digits_val(s: Seq<char>, i: int, j: int) -> int
    decreases j - i
        when i <= j
{
    if i >= j {
        0
    } else {
        digits_val(s, i, j - 1) * 10 + digit_of(s[j - 1])
    }
}

/// Skips spaces.
fn skip_spaces(s: &Vec<char>, i: usize) -> (r: usize)
    requires
        i <= s@.len(),
    ensures
        r as int == sp_spaces(s@, i as int),
        i <= r <= s@.len(),
    decreases s@.len() - i,
{
    if i < s.len() && s[i] == ' ' {
        skip_spaces(s, i + 1)
    } else {
        i
    }
}

/// Whether a character is a decimal digit.
fn digit_p(c: char) -> (b: bool)
    ensures
        b == is_digit(c),
{
    let u = c as u32;
    '0' as u32 <= u && u <= '9' as u32
}

/// Whether a character can start an identifier.
fn ident_start_p(c: char) -> (b: bool)
    ensures
        b == is_ident_start(c),
{
    let u = c as u32;
    ('a' as u32 <= u && u <= 'z' as u32) || ('A' as u32 <= u && u <= 'Z' as u32) || c == '_'
}

/// Whether a character can continue an identifier.
fn ident_char_p(c: char) -> (b: bool)
    ensures
        b == is_ident_char(c),
{
    ident_start_p(c) || digit_p(c)
}

/// Scans to the end of a run of identifier characters.
fn ident_end(s: &Vec<char>, i: usize) -> (r: usize)
    requires
        i <= s@.len(),
    ensures
        r as int == sp_ident_end(s@, i as int),
        i <= r <= s@.len(),
    decreases s@.len() - i,
{
    if i < s.len() && ident_char_p(s[i]) {
        ident_end(s, i + 1)
    } else {
        i
    }
}

/// Scans to the end of a run of digits.
fn digits_end(s: &Vec<char>, i: usize) -> (r: usize)
    requires
        i <= s@.len(),
    ensures
        r as int == sp_digits_end(s@, i as int),
        i <= r <= s@.len(),
    decreases s@.len() - i,
{
    if i < s.len() && digit_p(s[i]) {
        digits_end(s, i + 1)
    } else {
        i
    }
}

/// Every position in a digit run holds a digit, and the run only
/// moves forward.
proof fn lemma_digits_run(s: Seq<char>, i: int)
    requires
        0 <= i <= s.len(),
    ensures
        i <= sp_digits_end(s, i) <= s.len(),
        forall|k: int| i <= k < sp_digits_end(s, i) ==> is_digit(s[k]),
    decreases s.len() - i,
{
    if i < s.len() && is_digit(s[i]) {
        lemma_digits_run(s, i + 1);
    }
}

/// A number never shrinks as more digits follow.
proof fn lemma_digits_val_grows(s: Seq<char>, i: int, j: int, k: int)
    requires
        i <= j <= k,
        forall|m: int| i <= m < k ==> 0 <= #[trigger] digit_of(s[m]) <= 9,
    ensures
        0 <= digits_val(s, i, j) <= digits_val(s, i, k),
    decreases k - j,
{
    if j == k {
        lemma_digits_val_nonneg(s, i, j);
    } else {
        lemma_digits_val_grows(s, i, j, k - 1);
    }
}

/// A decimal number is never negative.
proof fn lemma_digits_val_nonneg(s: Seq<char>, i: int, j: int)
    requires
        i <= j,
        forall|m: int| i <= m < j ==> 0 <= #[trigger] digit_of(s[m]) <= 9,
    ensures
        digits_val(s, i, j) >= 0,
    decreases j - i,
{
    if i < j {
        lemma_digits_val_nonneg(s, i, j - 1);
    }
}

/// Reads the number a run of digits writes, or nothing when it
/// exceeds the signed 64-bit magnitude bound.
fn digits_value(s: &Vec<char>, i: usize, j: usize) -> (r: Option<u64>)
    requires
        i <= j <= s@.len(),
        forall|m: int| i <= m < j ==> is_digit(s@[m]),
    ensures
        match r {
            Some(v) => v as int == digits_val(s@, i as int, j as int) && v
                <= 0x8000000000000000u64,
            None => digits_val(s@, i as int, j as int) > 0x8000000000000000,
        },
{
    proof {
        assert forall|m: int| i <= m < j implies 0 <= #[trigger] digit_of(s@[m]) <= 9 by {
            assert(is_digit(s@[m]));
        }
    }
    let mut acc: u128 = 0;
    let mut k: usize = i;
    while k < j
        invariant
            i <= k <= j <= s@.len(),
            forall|m: int| i <= m < j ==> 0 <= #[trigger] digit_of(s@[m]) <= 9,
            acc as int == digits_val(s@, i as int, k as int),
            acc <= 0x8000000000000000u128,
        decreases j - k,
    {
        proof {
            assert(0 <= digit_of(s@[k as int]) <= 9);
        }
        let d = (s[k] as u32 - '0' as u32) as u128;
        proof {
            assert(d as int == digit_of(s@[k as int]));
        }
        acc = acc * 10 + d;
        k = k + 1;
        if acc > 0x8000000000000000u128 {
            proof {
                lemma_digits_val_grows(s@, i as int, k as int, j as int);
            }
            return None;
        }
    }
    Some(acc as u64)
}

/// A number literal at `i`: an optional minus sign, digits, and an
/// optional fraction.  With a fraction it is a floating-point literal
/// and stays text; without one it is an integer and must fit a signed
/// 64-bit value.
pub open spec fn sp_number(s: Seq<char>, i: int) -> Option<(LitModel, int)>
    recommends
        0 <= i <= s.len(),
{
    let neg = i < s.len() && s[i] == '-';
    let i1 = if neg {
        i + 1
    } else {
        i
    };
    let d = sp_digits_end(s, i1);
    if d == i1 {
        None
    } else if d < s.len() && s[d] == '.' {
        let d2 = sp_digits_end(s, d + 1);
        if d2 == d + 1 {
            None
        } else {
            Some((LitModel::Float(s.subrange(i, d2)), d2))
        }
    } else {
        let m = digits_val(s, i1, d);
        let v = if neg {
            -m
        } else {
            m
        };
        if -0x8000000000000000 <= v < 0x8000000000000000 {
            Some((LitModel::Int(v), d))
        } else {
            None
        }
    }
}

/// The contents of a string literal from just after its opening quote:
/// everything up to the closing quote, a backslash-escaped quote
/// standing for a quote.  Yields the contents and the position after
/// the closing quote; an unterminated literal yields nothing.
pub open spec fn sp_qcontent(s: Seq<char>, i: int) -> Option<(Seq<char>, int)>
    decreases s.len() - i
        when 0 <= i <= s.len()
{
    if i >= s.len() {
        None
    } else if s[i] == '"' {
        Some((Seq::empty(), i + 1))
    } else if s[i] == '\\' && i + 1 < s.len() && s[i + 1] == '"' {
        match sp_qcontent(s, i + 2) {
            Some((t, j)) => Some((seq!['"'] + t, j)),
            None => None,
        }
    } else {
        match sp_qcontent(s, i + 1) {
            Some((t, j)) => Some((seq![s[i]] + t, j)),
            None => None,
        }
    }
}

/// A literal at `i`: a quoted string or a number.
pub open spec fn sp_value(s: Seq<char>, i: int) -> Option<(LitModel, int)>
    recommends
        0 <= i <= s.len(),
{
    if i < s.len() && s[i] == '"' {
        match sp_qcontent(s, i + 1) {
            Some((t, j)) => Some((LitModel::Str(t), j)),
            None => None,
        }
    } else {
        sp_number(s, i)
    }
}

/// A relational operator at `i`.
pub open spec fn sp_op(s: Seq<char>, i: int) -> Option<(Operation, int)>
    recommends
        0 <= i <= s.len(),
{
    if i < s.len() && s[i] == '>' {
        if i + 1 < s.len() && s[i + 1] == '=' {
            Some((Operation::Gte, i + 2))
        } else {
            Some((Operation::Gt, i + 1))
        }
    } else if i < s.len() && s[i] == '<' {
        if i + 1 < s.len() && s[i + 1] == '=' {
            Some((Operation::Lte, i + 2))
        } else {
            Some((Operation::Lt, i + 1))
        }
    } else if i + 1 < s.len() && s[i] == '=' && s[i + 1] == '=' {
        Some((Operation::Eq, i + 2))
    } else {
        None
    }
}

/// The tag a type word names.
pub open spec fn tag_of_word(w: Seq<char>) -> Option<SimpleTypeDef> {
    if w == "int"@ {
        Some(SimpleTypeDef::Int)
    } else if w == "float"@ {
        Some(SimpleTypeDef::Float)
    } else if w == "string"@ {
        Some(SimpleTypeDef::String)
    } else {
        None
    }
}

/// A type declaration: the word `type`, then a type word, nothing
/// else but spaces.
pub open spec fn sp_set_type(s: Seq<char>) -> Option<SimpleTypeDef> {
    let i0 = sp_spaces(s, 0);
    match sp_ident(s, i0) {
        None => None,
        Some(e) => {
            if s.subrange(i0, e) == "type"@ {
                let j = sp_spaces(s, e);
                match sp_ident(s, j) {
                    None => None,
                    Some(f) => match tag_of_word(s.subrange(j, f)) {
                        None => None,
                        Some(tag) => {
                            if sp_spaces(s, f) == s.len() {
                                Some(tag)
                            } else {
                                None
                            }
                        },
                    },
                }
            } else {
                None
            }
        },
    }
}

/// An assignment: the variable, `=`, a literal, nothing else but
/// spaces.
pub open spec fn sp_assign(s: Seq<char>) -> Option<LitModel> {
    let i0 = sp_spaces(s, 0);
    match sp_ident(s, i0) {
        None => None,
        Some(e) => {
            let j = sp_spaces(s, e);
            if j < s.len() && s[j] == '=' {
                let k = sp_spaces(s, j + 1);
                match sp_value(s, k) {
                    None => None,
                    Some((lit, m)) => {
                        if sp_spaces(s, m) == s.len() {
                            Some(lit)
                        } else {
                            None
                        }
                    },
                }
            } else {
                None
            }
        },
    }
}

/// A comparison: the variable, an operator, a literal, nothing else
/// but spaces.
pub open spec fn sp_compare(s: Seq<char>) -> Option<(LitModel, Operation)> {
    let i0 = sp_spaces(s, 0);
    match sp_ident(s, i0) {
        None => None,
        Some(e) => {
            let j = sp_spaces(s, e);
            match sp_op(s, j) {
                None => None,
                Some((op, p)) => {
                    let k = sp_spaces(s, p);
                    match sp_value(s, k) {
                        None => None,
                        Some((lit, m)) => {
                            if sp_spaces(s, m) == s.len() {
                                Some((lit, op))
                            } else {
                                None
                            }
                        },
                    }
                },
            }
        },
    }
}

/// A bare variable reference, meaning "get".
pub open spec fn sp_get(s: Seq<char>) -> bool {
    let i0 = sp_spaces(s, 0);
    match sp_ident(s, i0) {
        Some(e) => sp_spaces(s, e) == s.len(),
        None => false,
    }
}

/// What one line parses to, if anything: the first matching form
/// among type declaration, assignment, comparison, and get.
pub open spec fn sp_statement(s: Seq<char>) -> Option<StmtModel> {
    if let Some(tag) = sp_set_type(s) {
        Some(StmtModel::SetType(tag))
    } else if let Some(lit) = sp_assign(s) {
        Some(StmtModel::SetVar(lit))
    } else if let Some((lit, op)) = sp_compare(s) {
        Some(StmtModel::Comparison(lit, op))
    } else if sp_get(s) {
        Some(StmtModel::Get)
    } else {
        None
    }
}

/// The characters of a line, one by one.
fn chars_vec(s: &str) -> (v: Vec<char>)
    ensures
        v@ == s@,
{
    let n = s.unicode_len();
    let mut v: Vec<char> = Vec::new();
    let mut i: usize = 0;
    while i < n
        invariant
            i <= n,
            n == s@.len(),
            v@.len() == i,
            forall|k: int| 0 <= k < i ==> v@[k] == s@[k],
        decreases n - i,
    {
        v.push(s.get_char(i));
        i = i + 1;
    }
    proof {
        assert(v@ =~= s@);
    }
    v
}

/// Copies the characters `s[i..j)` into a string.
fn string_range(s: &Vec<char>, i: usize, j: usize) -> (r: String)
    requires
        i <= j <= s@.len(),
    ensures
        r@ == s@.subrange(i as int, j as int),
{
    let mut out = String::new();
    proof {
        assert(out@ =~= s@.subrange(i as int, i as int));
    }
    let mut k: usize = i;
    while k < j
        invariant
            i <= k <= j <= s@.len(),
            out@ == s@.subrange(i as int, k as int),
        decreases j - k,
    {
        push_char(&mut out, s[k]);
        proof {
            assert(s@.subrange(i as int, k as int) + seq![s@[k as int]] =~= s@.subrange(
                i as int,
                k + 1,
            ));
        }
        k = k + 1;
    }
    out
}

/// Whether the characters `s[i..j)` spell the given word.
fn word_is(s: &Vec<char>, i: usize, j: usize, w: &str) -> (r: bool)
    requires
        i <= j <= s@.len(),
    ensures
        r == (s@.subrange(i as int, j as int) == w@),
{
    let n = w.unicode_len();
    if j - i != n {
        proof {
            assert(s@.subrange(i as int, j as int).len() != w@.len());
        }
        return false;
    }
    let mut k: usize = 0;
    while k < n
        invariant
            k <= n,
            n == w@.len(),
            n == j - i,
            i <= j <= s@.len(),
            forall|t: int| 0 <= t < k ==> s@[i + t] == w@[t],
        decreases n - k,
    {
        if s[i + k] != w.get_char(k) {
            proof {
                assert(s@.subrange(i as int, j as int)[k as int] != w@[k as int]);
            }
            return false;
        }
        k = k + 1;
    }
    proof {
        assert(s@.subrange(i as int, j as int) =~= w@);
    }
    true
}

/// Parses a number literal.
fn parse_number(s: &Vec<char>, i: usize) -> (r: Option<(RawValue, usize)>)
    requires
        i <= s@.len(),
    ensures
        match sp_number(s@, i as int) {
            Some((m, j)) => r matches Some((v, e)) && e as int == j && lit_model(v) == m,
            None => r is None,
        },
{
    let neg = i < s.len() && s[i] == '-';
    let i1 = if neg {
        i + 1
    } else {
        i
    };
    let d = digits_end(s, i1);
    if d == i1 {
        return None;
    }
    if d < s.len() && s[d] == '.' {
        let d2 = digits_end(s, d + 1);
        if d2 == d + 1 {
            return None;
        }
        let text = string_range(s, i, d2);
        Some((RawValue::Float(text), d2))
    } else {
        proof {
            lemma_digits_run(s@, i1 as int);
        }
        match digits_value(s, i1, d) {
            None => None,
            Some(m) => {
                if neg {
                    let x: i64 = if m == 0x8000000000000000u64 {
                        i64::MIN
                    } else {
                        -(m as i64)
                    };
                    Some((RawValue::Int(x), d))
                } else {
                    if m >= 0x8000000000000000u64 {
                        None
                    } else {
                        Some((RawValue::Int(m as i64), d))
                    }
                }
            },
        }
    }
}

/// Parses the contents of a string literal from just after its
/// opening quote.
fn parse_qcontent(s: &Vec<char>, i: usize) -> (r: Option<(String, usize)>)
    requires
        i <= s@.len(),
    ensures
        match sp_qcontent(s@, i as int) {
            Some((t, j)) => r matches Some((x, e)) && e as int == j && x@ == t,
            None => r is None,
        },
    decreases s@.len() - i,
{
    if i >= s.len() {
        None
    } else if s[i] == '"' {
        let out = String::new();
        proof {
            assert(out@ =~= Seq::<char>::empty());
        }
        Some((out, i + 1))
    } else if s[i] == '\\' && i + 1 < s.len() && s[i + 1] == '"' {
        match parse_qcontent(s, i + 2) {
            Some((t, j)) => {
                let mut out = String::new();
                push_char(&mut out, '"');
                out.append(t.as_str());
                Some((out, j))
            },
            None => None,
        }
    } else {
        match parse_qcontent(s, i + 1) {
            Some((t, j)) => {
                let mut out = String::new();
                push_char(&mut out, s[i]);
                out.append(t.as_str());
                Some((out, j))
            },
            None => None,
        }
    }
}

/// Parses a literal.
fn parse_value(s: &Vec<char>, i: usize) -> (r: Option<(RawValue, usize)>)
    requires
        i <= s@.len(),
    ensures
        match sp_value(s@, i as int) {
            Some((m, j)) => r matches Some((v, e)) && e as int == j && lit_model(v) == m,
            None => r is None,
        },
{
    if i < s.len() && s[i] == '"' {
        match parse_qcontent(s, i + 1) {
            Some((t, j)) => Some((RawValue::Str(t), j)),
            None => None,
        }
    } else {
        parse_number(s, i)
    }
}

/// A string literal's contents never end past the line.
proof fn lemma_sp_qcontent_bounds(s: Seq<char>, i: int)
    requires
        0 <= i <= s.len(),
    ensures
        match sp_qcontent(s, i) {
            Some((t, j)) => i <= j <= s.len(),
            None => true,
        },
    decreases s.len() - i,
{
    if i >= s.len() {
    } else if s[i] == '"' {
    } else if s[i] == '\\' && i + 1 < s.len() && s[i + 1] == '"' {
        lemma_sp_qcontent_bounds(s, i + 2);
    } else {
        lemma_sp_qcontent_bounds(s, i + 1);
    }
}

/// Parses a relational operator.
fn parse_op(s: &Vec<char>, i: usize) -> (r: Option<(Operation, usize)>)
    requires
        i <= s@.len(),
    ensures
        match sp_op(s@, i as int) {
            Some((op, j)) => r matches Some((x, e)) && x == op && e as int == j,
            None => r is None,
        },
{
    if i < s.len() && s[i] == '>' {
        if i + 1 < s.len() && s[i + 1] == '=' {
            Some((Operation::Gte, i + 2))
        } else {
            Some((Operation::Gt, i + 1))
        }
    } else if i < s.len() && s[i] == '<' {
        if i + 1 < s.len() && s[i + 1] == '=' {
            Some((Operation::Lte, i + 2))
        } else {
            Some((Operation::Lt, i + 1))
        }
    } else if i < s.len() && i + 1 < s.len() && s[i] == '=' && s[i + 1] == '=' {
        Some((Operation::Eq, i + 2))
    } else {
        None
    }
}

/// Parses an identifier, yielding the position after it.
fn parse_ident(s: &Vec<char>, i: usize) -> (r: Option<usize>)
    requires
        i <= s@.len(),
    ensures
        match sp_ident(s@, i as int) {
            Some(j) => r matches Some(e) && e as int == j && i <= e <= s@.len(),
            None => r is None,
        },
{
    if i < s.len() && ident_start_p(s[i]) {
        Some(ident_end(s, i + 1))
    } else {
        None
    }
}

/// Parses a type declaration.
fn parse_set_type(s: &Vec<char>) -> (r: Option<SimpleTypeDef>)
    ensures
        r == sp_set_type(s@),
{
    let i0 = skip_spaces(s, 0);
    match parse_ident(s, i0) {
        None => None,
        Some(e) => {
            if word_is(s, i0, e, "type") {
                let j = skip_spaces(s, e);
                match parse_ident(s, j) {
                    None => None,
                    Some(f) => {
                        let tag = if word_is(s, j, f, "int") {
                            Some(SimpleTypeDef::Int)
                        } else if word_is(s, j, f, "float") {
                            Some(SimpleTypeDef::Float)
                        } else if word_is(s, j, f, "string") {
                            Some(SimpleTypeDef::String)
                        } else {
                            None
                        };
                        match tag {
                            None => None,
                            Some(t) => {
                                if skip_spaces(s, f) == s.len() {
                                    Some(t)
                                } else {
                                    None
                                }
                            },
                        }
                    },
                }
            } else {
                None
            }
        },
    }
}

/// Parses an assignment.
fn parse_assign(s: &Vec<char>) -> (r: Option<RawValue>)
    ensures
        match sp_assign(s@) {
            Some(m) => r matches Some(v) && lit_model(v) == m,
            None => r is None,
        },
{
    let i0 = skip_spaces(s, 0);
    match parse_ident(s, i0) {
        None => None,
        Some(e) => {
            let j = skip_spaces(s, e);
            if j < s.len() && s[j] == '=' {
                let k = skip_spaces(s, j + 1);
                match parse_value(s, k) {
                    None => None,
                    Some((lit, m)) => {
                        proof {
                            lemma_sp_value_bounds(s@, k as int);
                        }
                        if skip_spaces(s, m) == s.len() {
                            Some(lit)
                        } else {
                            None
                        }
                    },
                }
            } else {
                None
            }
        },
    }
}

/// A parsed literal never ends past the line.
proof fn lemma_sp_value_bounds(s: Seq<char>, i: int)
    requires
        0 <= i <= s.len(),
    ensures
        match sp_value(s, i) {
            Some((m, j)) => i <= j <= s.len(),
            None => true,
        },
{
    if i < s.len() && s[i] == '"' {
        lemma_sp_qcontent_bounds(s, i + 1);
    } else {
        let neg = i < s.len() && s[i] == '-';
        let i1: int = if neg {
            i + 1
        } else {
            i
        };
        lemma_digits_run(s, i1);
        let d = sp_digits_end(s, i1);
        if d < s.len() && s[d] == '.' {
            lemma_digits_run(s, d + 1);
        }
    }
}

/// Parses a comparison.
fn parse_compare(s: &Vec<char>) -> (r: Option<(RawValue, Operation)>)
    ensures
        match sp_compare(s@) {
            Some((m, op)) => r matches Some((v, x)) && lit_model(v) == m && x == op,
            None => r is None,
        },
{
    let i0 = skip_spaces(s, 0);
    match parse_ident(s, i0) {
        None => None,
        Some(e) => {
            let j = skip_spaces(s, e);
            match parse_op(s, j) {
                None => None,
                Some((op, p)) => {
                    let k = skip_spaces(s, p);
                    match parse_value(s, k) {
                        None => None,
                        Some((lit, m)) => {
                            proof {
                                lemma_sp_value_bounds(s@, k as int);
                            }
                            if skip_spaces(s, m) == s.len() {
                                Some((lit, op))
                            } else {
                                None
                            }
                        },
                    }
                },
            }
        },
    }
}

/// Parses a bare variable reference.
fn parse_get(s: &Vec<char>) -> (r: bool)
    ensures
        r == sp_get(s@),
{
    let i0 = skip_spaces(s, 0);
    match parse_ident(s, i0) {
        Some(e) => skip_spaces(s, e) == s.len(),
        None => false,
    }
}

/// Parses one full line as a relational operator.
pub fn comparison(s: &str) -> (r: Result<Operation, CommandError>)
    ensures
        match sp_op(s@, 0) {
            Some((op, j)) if j == s@.len() => r == Ok::<Operation, CommandError>(op),
            _ => r == Err::<Operation, CommandError>(CommandError::ParseError),
        },
{
    let v = chars_vec(s);
    match parse_op(&v, 0) {
        Some((op, e)) => {
            if e == v.len() {
                Ok(op)
            } else {
                Err(CommandError::ParseError)
            }
        },
        None => Err(CommandError::ParseError),
    }
}

/// Parses one full line as a backslash-escaped quote.
pub fn escaped_quote(s: &str) -> (r: Result<String, CommandError>)
    ensures
        s@ == seq!['\\', '"'] ==> (r matches Ok(t) && t@ == seq!['"']),
        s@ != seq!['\\', '"'] ==> r == Err::<String, CommandError>(CommandError::ParseError),
{
    let v = chars_vec(s);
    if v.len() == 2 && v[0] == '\\' && v[1] == '"' {
        proof {
            assert(s@ =~= seq!['\\', '"']);
        }
        let mut out = String::new();
        push_char(&mut out, '"');
        proof {
            assert(out@ =~= seq!['"']);
        }
        Ok(out)
    } else {
        proof {
            if s@ == seq!['\\', '"'] {
                assert(s@.len() == 2 && s@[0] == '\\' && s@[1] == '"');
            }
        }
        Err(CommandError::ParseError)
    }
}

/// Whether a line is a plain run of string-literal characters:
/// non-empty, with no quote and no backslash.
pub open spec fn sp_raw_string_ok(s: Seq<char>) -> bool {
    s.len() > 0 && forall|k: int| 0 <= k < s.len() ==> s[k] != '"' && s[k] != '\\'
}

/// Parses one full line as a plain run of string-literal characters.
pub fn raw_string(s: &str) -> (r: Result<String, CommandError>)
    ensures
        sp_raw_string_ok(s@) ==> (r matches Ok(t) && t@ == s@),
        !sp_raw_string_ok(s@) ==> r == Err::<String, CommandError>(CommandError::ParseError),
{
    let v = chars_vec(s);
    if v.len() == 0 {
        return Err(CommandError::ParseError);
    }
    let mut k: usize = 0;
    while k < v.len()
        invariant
            k <= v@.len(),
            v@ == s@,
            forall|t: int| 0 <= t < k ==> s@[t] != '"' && s@[t] != '\\',
        decreases v@.len() - k,
    {
        if v[k] == '"' || v[k] == '\\' {
            return Err(CommandError::ParseError);
        }
        k = k + 1;
    }
    Ok(String::from_str(s))
}

/// Parses one full line as a quoted string literal, yielding its
/// contents.
pub open spec fn sp_quoted_full(s: Seq<char>) -> Option<Seq<char>> {
    if s.len() >= 1 && s[0] == '"' {
        match sp_qcontent(s, 1) {
            Some((t, e)) => {
                if e == s.len() {
                    Some(t)
                } else {
                    None
                }
            },
            None => None,
        }
    } else {
        None
    }
}

/// Parses one full line as a quoted string literal.
pub fn quoted_string(s: &str) -> (r: Result<String, CommandError>)
    ensures
        match sp_quoted_full(s@) {
            Some(t) => r matches Ok(x) && x@ == t,
            None => r == Err::<String, CommandError>(CommandError::ParseError),
        },
{
    let v = chars_vec(s);
    if v.len() >= 1 {
        let c = v[0];
        if c == '"' {
            match parse_qcontent(&v, 1) {
                Some((t, e)) => {
                    if e == v.len() {
                        return Ok(t);
                    }
                    return Err(CommandError::ParseError);
                },
                None => {
                    return Err(CommandError::ParseError);
                },
            }
        }
    }
    Err(CommandError::ParseError)
}

/// Parses one full line as a literal.
pub open spec fn sp_variable_full(s: Seq<char>) -> Option<LitModel> {
    match sp_value(s, 0) {
        Some((m, e)) => {
            if e == s.len() {
                Some(m)
            } else {
                None
            }
        },
        None => None,
    }
}

/// Parses one full line as a literal.
pub fn variable(s: &str) -> (r: Result<RawValue, CommandError>)
    ensures
        match sp_variable_full(s@) {
            Some(m) => r matches Ok(v) && lit_model(v) == m,
            None => r == Err::<RawValue, CommandError>(CommandError::ParseError),
        },
{
    let v = chars_vec(s);
    match parse_value(&v, 0) {
        Some((lit, e)) => {
            if e == v.len() {
                Ok(lit)
            } else {
                Err(CommandError::ParseError)
            }
        },
        None => Err(CommandError::ParseError),
    }
}

/// Parses one full line as an assignment.
pub fn set_command(s: &str) -> (r: Result<RawStatement, CommandError>)
    ensures
        match sp_assign(s@) {
            Some(m) => r matches Ok(st) && stmt_model(st) == StmtModel::SetVar(m),
            None => r == Err::<RawStatement, CommandError>(CommandError::ParseError),
        },
{
    let v = chars_vec(s);
    match parse_assign(&v) {
        Some(lit) => Ok(RawStatement::SetVar(lit)),
        None => Err(CommandError::ParseError),
    }
}

/// Parses one full line as a comparison.
pub fn comparison_command(s: &str) -> (r: Result<RawStatement, CommandError>)
    ensures
        match sp_compare(s@) {
            Some((m, op)) => r matches Ok(st) && stmt_model(st) == StmtModel::Comparison(m, op),
            None => r == Err::<RawStatement, CommandError>(CommandError::ParseError),
        },
{
    let v = chars_vec(s);
    match parse_compare(&v) {
        Some((lit, op)) => Ok(RawStatement::Comparison(lit, op)),
        None => Err(CommandError::ParseError),
    }
}

/// Parses one line as a command, trying the type declaration, the
/// assignment, the comparison, and the bare reference in that order.
pub fn statement(line: &str) -> (r: Result<RawStatement, CommandError>)
    ensures
        match sp_statement(line@) {
            Some(m) => r matches Ok(st) && stmt_model(st) == m,
            None => r == Err::<RawStatement, CommandError>(CommandError::ParseError),
        },
{
    let v = chars_vec(line);
    if let Some(tag) = parse_set_type(&v) {
        return Ok(RawStatement::SetType(tag));
    }
    if let Some(lit) = parse_assign(&v) {
        return Ok(RawStatement::SetVar(lit));
    }
    if let Some((lit, op)) = parse_compare(&v) {
        return Ok(RawStatement::Comparison(lit, op));
    }
    if parse_get(&v) {
        return Ok(RawStatement::Get);
    }
    Err(CommandError::ParseError)
}

/// Whether the resolution of a literal into a tagged value is
/// faithful: the tag follows the literal's form, and the content is
/// the literal's — for a floating-point literal, the bit pattern the
/// caller obtained from its text.
pub open spec fn lit_resolved(l: RawValue, fbits: Option<u64>, v: SimpleType) -> bool {
    v.wf() && match l {
        RawValue::Int(i) => v.otype == SimpleTypeDef::Int && v.int_val() == i as int,
        RawValue::Float(t) => v.otype == SimpleTypeDef::Float && (fbits matches Some(b)
            && v.float_bits() == b),
        RawValue::Str(t) => v.otype == SimpleTypeDef::String && v.text() == t@,
    }
}

/// The text of the floating-point literal a command carries, if any.
pub open spec fn stmt_float_text(st: RawStatement) -> Option<Seq<char>> {
    match st {
        RawStatement::SetVar(RawValue::Float(t)) => Some(t@),
        RawStatement::Comparison(RawValue::Float(t), _) => Some(t@),
        _ => None,
    }
}

/// Whether the resolution of a parsed command is faithful.
pub open spec fn stmt_resolved(st: RawStatement, fbits: Option<u64>, c: UselessStatement) -> bool {
    match st {
        RawStatement::SetType(d) => c == UselessStatement::SetType(d),
        RawStatement::SetVar(l) => c matches UselessStatement::SetVar(v) && lit_resolved(
            l,
            fbits,
            v,
        ),
        RawStatement::Comparison(l, op) => c matches UselessStatement::Comparison(v, op2) && op2
            == op && lit_resolved(l, fbits, v),
        RawStatement::Get => c == UselessStatement::Get,
    }
}

impl RawValue {
    /// Builds the tagged value a literal stands for.  A
    /// floating-point literal needs its bit pattern, which the caller
    /// obtains by converting the literal's text.
    pub fn resolve(self, fbits: Option<u64>) -> (r: SimpleType)
        requires
            self matches RawValue::Float(_) ==> fbits is Some,
        ensures
            lit_resolved(self, fbits, r),
    {
        match self {
            RawValue::Int(i) => SimpleType::from_int(i),
            RawValue::Float(_) => match fbits {
                Some(b) => SimpleType::from_float_bits(b),
                None => vstd::pervasive::unreached(),
            },
            RawValue::Str(t) => SimpleType::from_string(t.as_str()),
        }
    }
}

impl RawStatement {
    /// The text of the floating-point literal this command carries,
    /// if any: the caller converts it to a bit pattern before calling
    /// [`RawStatement::resolve`].
    pub fn float_text(&self) -> (r: Option<&String>)
        ensures
            match r {
                Some(t) => stmt_float_text(*self) == Some(t@),
                None => stmt_float_text(*self) is None,
            },
    {
        match self {
            RawStatement::SetVar(RawValue::Float(t)) => Some(t),
            RawStatement::Comparison(RawValue::Float(t), _) => Some(t),
            _ => None,
        }
    }

    /// Builds the command a parsed line stands for.
    pub fn resolve(self, fbits: Option<u64>) -> (r: UselessStatement)
        requires
            stmt_float_text(self) is Some ==> fbits is Some,
        ensures
            stmt_resolved(self, fbits, r),
            cmd_wf(r),
    {
        match self {
            RawStatement::SetType(d) => UselessStatement::SetType(d),
            RawStatement::SetVar(v) => UselessStatement::SetVar(v.resolve(fbits)),
            RawStatement::Comparison(v, op) => UselessStatement::Comparison(v.resolve(fbits), op),
            RawStatement::Get => UselessStatement::Get,
        }
    }
}

} // verus!
