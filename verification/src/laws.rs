//! The properties that tie the pieces together.
//!
//! Each proof function here states one law of the library over the
//! same specification functions its contracts use: the ordering laws
//! of tagged values, the encoding round trips, and the store's
//! behaviour under each command.

use core::cmp::Ordering;
use vstd::prelude::*;
use vstd::utf8::decode_utf8;
use vstd::utf8::encode_utf8;

use crate::commands::RespModel;
use crate::commands::UselessStatement;
use crate::commands::spec_dispatch;
use crate::db::Database;
use crate::db::Operation;
use crate::db::eval_op;
use crate::order::cmp_spec;
use crate::order::eq_spec;
use crate::order::lemma_lex_antisym;
use crate::text::display_model;
use crate::values::SimpleType;
use crate::values::SimpleTypeDef;
use crate::values::i64_of_word;
use crate::values::lemma_i64_word_round_trip;
use crate::values::lemma_u64_be_round_trip;
use crate::values::u64_from_be;
use crate::values::u64_to_be;
use crate::values::word_of_i64;

verus! {

/// For two well-formed values of the same tag, the comparison is
/// antisymmetric, and it reports an equal ordering exactly when the
/// values are equal in content.
pub proof fn lemma_compare_antisymmetric(a: SimpleType, b: SimpleType)
    requires
        a.wf(),
        b.wf(),
        a.otype == b.otype,
    ensures
        cmp_spec(a, b) == Some(Ordering::Less) <==> cmp_spec(b, a) == Some(Ordering::Greater),
        cmp_spec(a, b) == Some(Ordering::Greater) <==> cmp_spec(b, a) == Some(Ordering::Less),
        cmp_spec(a, b) == Some(Ordering::Equal) <==> cmp_spec(b, a) == Some(Ordering::Equal),
        eq_spec(a, b) <==> cmp_spec(a, b) == Some(Ordering::Equal),
{
    if a.otype == SimpleTypeDef::String {
        lemma_lex_antisym(a.value@, b.value@);
        lemma_lex_antisym(b.value@, a.value@);
    }
}

/// For two values of differing tags, no ordering exists: they are
/// unequal, and every relational operator evaluates to false over
/// them.
pub proof fn lemma_differing_tags(a: SimpleType, b: SimpleType)
    requires
        a.otype != b.otype,
    ensures
        !eq_spec(a, b),
        cmp_spec(a, b) is None,
        forall|op: Operation| !eval_op(a, b, op),
{
}

/// Reading the canonical encoding of a 64-bit integer back gives the
/// integer, for every 64-bit integer.
pub proof fn lemma_int_round_trip(x: i64)
    ensures
        i64_of_word(u64_from_be(u64_to_be(word_of_i64(x as int)))) == x as int,
{
    lemma_u64_be_round_trip(word_of_i64(x as int));
    lemma_i64_word_round_trip(x as int);
}

/// Reading the canonical encoding of a double back gives the same
/// bit pattern, for every bit pattern — NaN patterns included, since
/// the library carries a double as its bits.
pub proof fn lemma_float_round_trip(bits: u64)
    ensures
        u64_from_be(u64_to_be(bits)) == bits,
{
    lemma_u64_be_round_trip(bits);
}

/// Reading the canonical UTF-8 encoding of a text back gives the
/// text, for every text.
pub proof fn lemma_string_round_trip(s: Seq<char>)
    ensures
        decode_utf8(encode_utf8(s)) == s,
{
    broadcast use vstd::utf8::encode_utf8_decode_utf8;

}

/// Locking a type always leaves the slot without a value, whatever
/// the prior state.
pub proof fn lemma_set_type_clears(db: Database, def: SimpleTypeDef)
    ensures
        spec_dispatch(db, UselessStatement::SetType(def)).0.v is None,
        spec_dispatch(db, UselessStatement::SetType(def)).0.t == Some(def),
{
}

/// Setting the variable on a store with no locked type always fails
/// with a type error and leaves the store unchanged.
pub proof fn lemma_set_unlocked_fails(db: Database, v: SimpleType)
    requires
        db.t is None,
    ensures
        spec_dispatch(db, UselessStatement::SetVar(v)).0 == db,
        spec_dispatch(db, UselessStatement::SetVar(v)).1 == RespModel::Text("type_error"@),
{
}

/// Setting the variable succeeds exactly when the value's tag is the
/// locked type; after a success, reading the slot back yields that
/// value's rendering — for a double, its bit pattern, which the
/// caller renders.
pub proof fn lemma_set_var_success(db: Database, v: SimpleType)
    requires
        db.wf(),
        v.wf(),
    ensures
        (spec_dispatch(db, UselessStatement::SetVar(v)).1 == RespModel::Text("ok"@)) <==> db.t
            == Some(v.otype),
        db.t == Some(v.otype) ==> spec_dispatch(
            spec_dispatch(db, UselessStatement::SetVar(v)).0,
            UselessStatement::Get,
        ).1 == (if v.otype == SimpleTypeDef::Float {
            RespModel::FloatBits(v.float_bits())
        } else {
            RespModel::Text(display_model(v))
        }),
{
    reveal_strlit("ok");
    reveal_strlit("type_error");
    assert("ok"@.len() == 2);
    assert("type_error"@.len() == 10);
    assert(RespModel::Text("ok"@) != RespModel::Text("type_error"@));
}

/// A comparison against a store holding no value yields false, for
/// every operator and operand, and leaves the store unchanged.
pub proof fn lemma_compare_absent(db: Database, v: SimpleType, op: Operation)
    requires
        db.v is None,
    ensures
        !db.compare_spec(v, op),
        spec_dispatch(db, UselessStatement::Comparison(v, op)).0 == db,
        spec_dispatch(db, UselessStatement::Comparison(v, op)).1 == RespModel::Text("false"@),
{
}

/// Reading the slot changes nothing, so repeating it yields the same
/// response every time.
pub proof fn lemma_get_idempotent(db: Database)
    ensures
        spec_dispatch(db, UselessStatement::Get).0 == db,
        spec_dispatch(spec_dispatch(db, UselessStatement::Get).0, UselessStatement::Get).1
            == spec_dispatch(db, UselessStatement::Get).1,
{
}

} // verus!
