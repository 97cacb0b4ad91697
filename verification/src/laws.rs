//! The library-wide laws: proof functions stating what the marshaling
//! layer guarantees when its two directions are composed.
//!
//! Serialization contracts end in `denotes(s, v, x.datum())` — the
//! produced handle stands for the host value's datum — and extraction
//! contracts end in `de_spec`. The laws here connect the two: what a
//! handle stands for decides exactly what reads back.

use vstd::prelude::*;

use crate::de::{ErrModel, FromValue};
use crate::state::{denotes, lemma_denotes_preserved, struct_eql, StateM};
use crate::symbol::Symbol;
use crate::value::{Datum, RawValue};

verus! {

/// Round-trip for booleans: a handle standing for a boolean reads back
/// as exactly that boolean.
pub proof fn lemma_round_trip_bool(s: StateM, v: RawValue, b: bool)
    requires
        denotes(s, v, Datum::Bool(b)),
    ensures
        <bool as FromValue>::de_spec(s, v) == Ok::<_, ErrModel>(Datum::Bool(b)),
{
}

/// Round-trip for integers: a handle standing for an integer reads back
/// as exactly that integer at the runtime-native width.
pub proof fn lemma_round_trip_int(s: StateM, v: RawValue, n: i64)
    requires
        denotes(s, v, Datum::Int(n)),
    ensures
        <i64 as FromValue>::de_spec(s, v) == Ok::<_, ErrModel>(Datum::Int(n)),
{
}

/// Round-trip for strings: a handle standing for text reads back as
/// exactly that text.
pub proof fn lemma_round_trip_string(s: StateM, v: RawValue, t: Seq<char>)
    requires
        denotes(s, v, Datum::Str(t)),
    ensures
        <String as FromValue>::de_spec(s, v) == Ok::<_, ErrModel>(Datum::Str(t)),
{
}

/// Round-trip for characters: a handle standing for one-character text
/// reads back as that character.
pub proof fn lemma_round_trip_char(s: StateM, v: RawValue, c: char)
    requires
        denotes(s, v, Datum::Str(seq![c])),
    ensures
        <char as FromValue>::de_spec(s, v) == Ok::<_, ErrModel>(Datum::Str(seq![c])),
{
    assert(s.strings[v->Str_0 as int].len() == 1);
}

/// Round-trip for symbols: a handle standing for a symbol reads back as
/// a symbol of exactly that name.
pub proof fn lemma_round_trip_symbol(s: StateM, v: RawValue, t: Seq<char>)
    requires
        denotes(s, v, Datum::Sym(t)),
    ensures
        <Symbol as FromValue>::de_spec(s, v) == Ok::<_, ErrModel>(Datum::Sym(t)),
{
}

/// Round-trip for the unit host type: a handle standing for the
/// undefined kind reads back as unit.
pub proof fn lemma_round_trip_unit(s: StateM, v: RawValue)
    requires
        denotes(s, v, Datum::Undef),
    ensures
        <() as FromValue>::de_spec(s, v) == Ok::<_, ErrModel>(Datum::Undef),
{
}

/// Round-trip for options: an absent value serializes to nil and reads
/// back as `None`; a present value is not wrapped, so it reads back as
/// `Some` of whatever the inner extraction gives.
pub proof fn lemma_round_trip_option<T: FromValue>(s: StateM, v: RawValue, d: Datum)
    requires
        denotes(s, v, d),
        d is Nil || T::de_spec(s, v) == Ok::<_, ErrModel>(d),
    ensures
        <Option<T> as FromValue>::de_spec(s, v) == Ok::<_, ErrModel>(d),
{
    if d is Nil {
        assert(v == RawValue::Nil);
    } else {
        match d {
            Datum::Nil => {},
            _ => {
                assert(!(v is Nil));
            },
        }
    }
}

/// Checked numeric narrowing: a handle standing for an integer reads
/// back at a narrower width exactly when the value fits; otherwise the
/// failure names the value and the target type, and nothing is silently
/// truncated.
pub proof fn lemma_numeric_narrowing(s: StateM, v: RawValue, n: i64)
    requires
        denotes(s, v, Datum::Int(n)),
    ensures
        0 <= n <= u8::MAX ==> <u8 as FromValue>::de_spec(s, v) == Ok::<_, ErrModel>(
            Datum::Int(n),
        ),
        !(0 <= n <= u8::MAX) ==> <u8 as FromValue>::de_spec(s, v) == Err::<Datum, _>(
            ErrModel::NumericConversion(n as int, "u8"@),
        ),
{
}

/// Tuple arity is enforced: extracting a pair from an array of any other
/// length fails with exactly the expected and found lengths.
pub proof fn lemma_tuple_arity<A: FromValue, B: FromValue>(
    s: StateM,
    v: RawValue,
    ds: Seq<Datum>,
)
    requires
        denotes(s, v, Datum::Ary(ds)),
        ds.len() != 2,
    ensures
        <(A, B) as FromValue>::de_spec(s, v) == Err::<Datum, _>(
            ErrModel::Length(2, ds.len() as int),
        ),
{
}

/// A triple of matching element types extracts successfully and keeps
/// its order: the elements read back index for index.
pub proof fn lemma_tuple3_round_trip<A: FromValue, B: FromValue, C: FromValue>(
    s: StateM,
    v: RawValue,
    ds: Seq<Datum>,
)
    requires
        denotes(s, v, Datum::Ary(ds)),
        ds.len() == 3,
        A::de_spec(s, s.arrays[v->Ary_0 as int][0]) == Ok::<_, ErrModel>(ds[0]),
        B::de_spec(s, s.arrays[v->Ary_0 as int][1]) == Ok::<_, ErrModel>(ds[1]),
        C::de_spec(s, s.arrays[v->Ary_0 as int][2]) == Ok::<_, ErrModel>(ds[2]),
    ensures
        <(A, B, C) as FromValue>::de_spec(s, v) == Ok::<_, ErrModel>(Datum::Ary(ds)),
{
    assert(seq![ds[0], ds[1], ds[2]] =~= ds);
}

/// A homogeneous sequence of elements that each extract successfully
/// extracts to exactly those elements, in order.
pub proof fn lemma_sequence_round_trip<T: FromValue>(s: StateM, v: RawValue, ds: Seq<Datum>)
    requires
        denotes(s, v, Datum::Ary(ds)),
        forall|j: int|
            0 <= j < ds.len() ==> T::de_spec(s, #[trigger] s.arrays[v->Ary_0 as int][j]) == Ok::<
                _,
                ErrModel,
            >(ds[j]),
    ensures
        <Vec<T> as FromValue>::de_spec(s, v) == Ok::<_, ErrModel>(Datum::Ary(ds)),
{
    crate::de::lemma_column_de_all_ok::<T>(s, s.arrays[v->Ary_0 as int], ds, 0);
    assert(ds.skip(0) =~= ds);
}

/// A serialized mapping decomposes into key and value columns of equal
/// length, and the entry at each index stands for the pair serialized at
/// that index: insertion order survives the round trip.
pub proof fn lemma_map_round_trip(s: StateM, v: RawValue, ks: Seq<Datum>, vs: Seq<Datum>)
    requires
        s.inv(),
        denotes(s, v, Datum::Hash(ks, vs)),
    ensures
        ks.len() == vs.len(),
        s.hashes[v->Hash_0 as int].keys.len() == ks.len(),
        s.hashes[v->Hash_0 as int].vals.len() == vs.len(),
        forall|j: int|
            0 <= j < ks.len() ==> denotes(s, s.hashes[v->Hash_0 as int].keys[j], #[trigger] ks[j]),
        forall|j: int|
            0 <= j < vs.len() ==> denotes(s, s.hashes[v->Hash_0 as int].vals[j], #[trigger] vs[j]),
{
}

/// Serialization is idempotent: serializing one host value twice, each
/// time through an independent conversion context, yields dynamic values
/// that the runtime's structural equality identifies. The two calls'
/// contracts give exactly the hypotheses: each result stands for the
/// host value's datum in its own post-state, and the first result is
/// carried forward by preservation.
pub proof fn lemma_serialize_idempotent(
    s1: StateM,
    s2: StateM,
    v1: RawValue,
    v2: RawValue,
    d: Datum,
)
    requires
        s1.preserved_in(s2),
        denotes(s1, v1, d),
        denotes(s2, v2, d),
    ensures
        struct_eql(s2, v1, v2),
{
    lemma_denotes_preserved(s1, s2, v1, d);
}

} // verus!
