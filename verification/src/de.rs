//! Deserialization: the capability contract that reconstructs host
//! values from runtime-owned dynamic values, and its implementations for
//! the built-in host types.

pub mod deserializer;
pub mod error;

pub use deserializer::Deserializer;
pub use deserializer::MapIter;
pub use deserializer::SeqDeserializer;
pub use deserializer::SeqIter;
pub use error::CastError;
pub use error::ErrModel;

use std::collections::VecDeque;

use vstd::prelude::*;

use crate::state::{raw_valid, text_of, State, StateM};
use crate::symbol::Symbol;
use crate::value::{Datum, RawValue, ValueModel};

verus! {

/// The deserialization capability: a host type that can be reconstructed
/// from a dynamic value, or fail with a structured cast error.
///
/// `de_spec` is the type's whole extraction behavior as a mathematical
/// function of the session and the handle: which datum the reconstructed
/// host value stands for, or exactly which error comes back. Every
/// implementation's `from_value` returns precisely what `de_spec` says,
/// and `lemma_de_spec_preserved` pins that answer down across any
/// session step that keeps existing arena entries in place.
pub trait FromValue: ValueModel + Sized {
    /// The extraction's result, as a function of session and handle: the
    /// datum of the host value produced, or the error.
    spec fn de_spec(s: StateM, v: RawValue) -> Result<Datum, ErrModel>;

    /// Extraction only reads arena entries that already exist, so its
    /// outcome survives any preserving session step.
    proof fn lemma_de_spec_preserved(s1: StateM, s2: StateM, v: RawValue)
        requires
            s1.inv(),
            raw_valid(s1, v),
            s1.preserved_in(s2),
        ensures
            Self::de_spec(s1, v) == Self::de_spec(s2, v),
    ;

    fn from_value(de: Deserializer, st: &mut State) -> (r: Result<Self, CastError>)
        requires
            old(st)@.inv(),
            raw_valid(old(st)@, de@),
        ensures
            final(st)@.inv(),
            old(st)@.preserved_in(final(st)@),
            match r {
                Ok(x) => Self::de_spec(old(st)@, de@) == Ok::<_, ErrModel>(x.datum()),
                Err(e) => Self::de_spec(old(st)@, de@) == Err::<Datum, _>(e@),
            },
    ;
}

impl FromValue for () {
    open spec fn de_spec(s: StateM, v: RawValue) -> Result<Datum, ErrModel> {
        if v is Undef || v is Nil {
            Ok(Datum::Undef)
        } else {
            Err(ErrModel::UnexpectedType("value is not undefined"@))
        }
    }

    proof fn lemma_de_spec_preserved(s1: StateM, s2: StateM, v: RawValue) {
    }

    fn from_value(de: Deserializer, st: &mut State) -> (r: Result<Self, CastError>) {
        de.deserialize_unit()
    }
}

impl FromValue for bool {
    open spec fn de_spec(s: StateM, v: RawValue) -> Result<Datum, ErrModel> {
        match v {
            RawValue::Bool(b) => Ok(Datum::Bool(b)),
            _ => Err(ErrModel::UnexpectedType("value is not a boolean"@)),
        }
    }

    proof fn lemma_de_spec_preserved(s1: StateM, s2: StateM, v: RawValue) {
    }

    fn from_value(de: Deserializer, st: &mut State) -> (r: Result<Self, CastError>) {
        de.deserialize_bool()
    }
}

impl FromValue for i64 {
    open spec fn de_spec(s: StateM, v: RawValue) -> Result<Datum, ErrModel> {
        match v {
            RawValue::Int(n) => Ok(Datum::Int(n)),
            _ => Err(ErrModel::UnexpectedType("value is not an integer"@)),
        }
    }

    proof fn lemma_de_spec_preserved(s1: StateM, s2: StateM, v: RawValue) {
    }

    fn from_value(de: Deserializer, st: &mut State) -> (r: Result<Self, CastError>) {
        de.deserialize_integer()
    }
}

/// Checked narrowing from the runtime-native integer width: what every
/// smaller host integer type's extraction means.
pub open spec fn narrow_de_spec(v: RawValue, lo: int, hi: int, target: Seq<char>) -> Result<
    Datum,
    ErrModel,
> {
    match v {
        RawValue::Int(n) => if lo <= n <= hi {
            Ok(Datum::Int(n))
        } else {
            Err(ErrModel::NumericConversion(n as int, target))
        },
        _ => Err(ErrModel::UnexpectedType("value is not an integer"@)),
    }
}

impl FromValue for i8 {
    open spec fn de_spec(s: StateM, v: RawValue) -> Result<Datum, ErrModel> {
        narrow_de_spec(v, i8::MIN as int, i8::MAX as int, "i8"@)
    }

    proof fn lemma_de_spec_preserved(s1: StateM, s2: StateM, v: RawValue) {
    }

    fn from_value(de: Deserializer, st: &mut State) -> (r: Result<Self, CastError>) {
        let n = match de.deserialize_integer() {
            Ok(n) => n,
            Err(e) => {
                return Err(e);
            },
        };
        if n >= i8::MIN as i64 && n <= i8::MAX as i64 {
            Ok(n as i8)
        } else {
            Err(CastError::numeric_conversion(n, "i8"))
        }
    }
}

impl ValueModel for i16 {
    open spec fn datum(&self) -> Datum {
        Datum::Int(*self as i64)
    }
}

impl ValueModel for u16 {
    open spec fn datum(&self) -> Datum {
        Datum::Int(*self as i64)
    }
}

impl FromValue for i16 {
    open spec fn de_spec(s: StateM, v: RawValue) -> Result<Datum, ErrModel> {
        narrow_de_spec(v, i16::MIN as int, i16::MAX as int, "i16"@)
    }

    proof fn lemma_de_spec_preserved(s1: StateM, s2: StateM, v: RawValue) {
    }

    fn from_value(de: Deserializer, st: &mut State) -> (r: Result<Self, CastError>) {
        let n = match de.deserialize_integer() {
            Ok(n) => n,
            Err(e) => {
                return Err(e);
            },
        };
        if n >= i16::MIN as i64 && n <= i16::MAX as i64 {
            Ok(n as i16)
        } else {
            Err(CastError::numeric_conversion(n, "i16"))
        }
    }
}

impl FromValue for i32 {
    open spec fn de_spec(s: StateM, v: RawValue) -> Result<Datum, ErrModel> {
        narrow_de_spec(v, i32::MIN as int, i32::MAX as int, "i32"@)
    }

    proof fn lemma_de_spec_preserved(s1: StateM, s2: StateM, v: RawValue) {
    }

    fn from_value(de: Deserializer, st: &mut State) -> (r: Result<Self, CastError>) {
        let n = match de.deserialize_integer() {
            Ok(n) => n,
            Err(e) => {
                return Err(e);
            },
        };
        if n >= i32::MIN as i64 && n <= i32::MAX as i64 {
            Ok(n as i32)
        } else {
            Err(CastError::numeric_conversion(n, "i32"))
        }
    }
}

impl FromValue for isize {
    open spec fn de_spec(s: StateM, v: RawValue) -> Result<Datum, ErrModel> {
        narrow_de_spec(v, isize::MIN as int, isize::MAX as int, "isize"@)
    }

    proof fn lemma_de_spec_preserved(s1: StateM, s2: StateM, v: RawValue) {
    }

    fn from_value(de: Deserializer, st: &mut State) -> (r: Result<Self, CastError>) {
        let n = match de.deserialize_integer() {
            Ok(n) => n,
            Err(e) => {
                return Err(e);
            },
        };
        if n >= isize::MIN as i64 && n <= isize::MAX as i64 {
            Ok(n as isize)
        } else {
            Err(CastError::numeric_conversion(n, "isize"))
        }
    }
}

impl FromValue for u8 {
    open spec fn de_spec(s: StateM, v: RawValue) -> Result<Datum, ErrModel> {
        narrow_de_spec(v, 0, u8::MAX as int, "u8"@)
    }

    proof fn lemma_de_spec_preserved(s1: StateM, s2: StateM, v: RawValue) {
    }

    fn from_value(de: Deserializer, st: &mut State) -> (r: Result<Self, CastError>) {
        let n = match de.deserialize_integer() {
            Ok(n) => n,
            Err(e) => {
                return Err(e);
            },
        };
        if n >= 0 && n <= u8::MAX as i64 {
            Ok(n as u8)
        } else {
            Err(CastError::numeric_conversion(n, "u8"))
        }
    }
}

impl FromValue for u16 {
    open spec fn de_spec(s: StateM, v: RawValue) -> Result<Datum, ErrModel> {
        narrow_de_spec(v, 0, u16::MAX as int, "u16"@)
    }

    proof fn lemma_de_spec_preserved(s1: StateM, s2: StateM, v: RawValue) {
    }

    fn from_value(de: Deserializer, st: &mut State) -> (r: Result<Self, CastError>) {
        let n = match de.deserialize_integer() {
            Ok(n) => n,
            Err(e) => {
                return Err(e);
            },
        };
        if n >= 0 && n <= u16::MAX as i64 {
            Ok(n as u16)
        } else {
            Err(CastError::numeric_conversion(n, "u16"))
        }
    }
}

impl FromValue for u32 {
    open spec fn de_spec(s: StateM, v: RawValue) -> Result<Datum, ErrModel> {
        narrow_de_spec(v, 0, u32::MAX as int, "u32"@)
    }

    proof fn lemma_de_spec_preserved(s1: StateM, s2: StateM, v: RawValue) {
    }

    fn from_value(de: Deserializer, st: &mut State) -> (r: Result<Self, CastError>) {
        let n = match de.deserialize_integer() {
            Ok(n) => n,
            Err(e) => {
                return Err(e);
            },
        };
        if n >= 0 && n <= u32::MAX as i64 {
            Ok(n as u32)
        } else {
            Err(CastError::numeric_conversion(n, "u32"))
        }
    }
}

impl FromValue for u64 {
    open spec fn de_spec(s: StateM, v: RawValue) -> Result<Datum, ErrModel> {
        narrow_de_spec(v, 0, i64::MAX as int, "u64"@)
    }

    proof fn lemma_de_spec_preserved(s1: StateM, s2: StateM, v: RawValue) {
    }

    fn from_value(de: Deserializer, st: &mut State) -> (r: Result<Self, CastError>) {
        let n = match de.deserialize_integer() {
            Ok(n) => n,
            Err(e) => {
                return Err(e);
            },
        };
        if n >= 0 {
            Ok(n as u64)
        } else {
            Err(CastError::numeric_conversion(n, "u64"))
        }
    }
}

impl FromValue for usize {
    open spec fn de_spec(s: StateM, v: RawValue) -> Result<Datum, ErrModel> {
        narrow_de_spec(
            v,
            0,
            if usize::MAX as int <= i64::MAX as int {
                usize::MAX as int
            } else {
                i64::MAX as int
            },
            "usize"@,
        )
    }

    proof fn lemma_de_spec_preserved(s1: StateM, s2: StateM, v: RawValue) {
    }

    fn from_value(de: Deserializer, st: &mut State) -> (r: Result<Self, CastError>) {
        let n = match de.deserialize_integer() {
            Ok(n) => n,
            Err(e) => {
                return Err(e);
            },
        };
        if n >= 0 && (usize::BITS >= 64 || n <= usize::MAX as i64) {
            Ok(n as usize)
        } else {
            Err(CastError::numeric_conversion(n, "usize"))
        }
    }
}

impl FromValue for char {
    open spec fn de_spec(s: StateM, v: RawValue) -> Result<Datum, ErrModel> {
        match v {
            RawValue::Str(i) => if i < s.strings.len() {
                let t = s.strings[i as int];
                if t.len() == 1 {
                    Ok(Datum::Str(t))
                } else if t.len() == 0 {
                    Err(ErrModel::UnexpectedType("string value is empty"@))
                } else {
                    Err(ErrModel::UnexpectedType("value contains multiple chars"@))
                }
            } else {
                Err(ErrModel::UnexpectedType("value is not a string"@))
            },
            _ => Err(ErrModel::UnexpectedType("value is not a string"@)),
        }
    }

    proof fn lemma_de_spec_preserved(s1: StateM, s2: StateM, v: RawValue) {
    }

    fn from_value(de: Deserializer, st: &mut State) -> (r: Result<Self, CastError>) {
        de.deserialize_char(st)
    }
}

impl FromValue for String {
    open spec fn de_spec(s: StateM, v: RawValue) -> Result<Datum, ErrModel> {
        match text_of(s, v) {
            Some(t) => Ok(Datum::Str(t)),
            None => Err(ErrModel::UnexpectedType("value is not a string"@)),
        }
    }

    proof fn lemma_de_spec_preserved(s1: StateM, s2: StateM, v: RawValue) {
    }

    fn from_value(de: Deserializer, st: &mut State) -> (r: Result<Self, CastError>) {
        de.deserialize_str(st)
    }
}

impl FromValue for Symbol {
    open spec fn de_spec(s: StateM, v: RawValue) -> Result<Datum, ErrModel> {
        match v {
            RawValue::Sym(i) => if i < s.symbols.len() {
                Ok(Datum::Sym(s.symbols[i as int]))
            } else {
                Err(ErrModel::UnexpectedType("value is not a symbol"@))
            },
            _ => Err(ErrModel::UnexpectedType("value is not a symbol"@)),
        }
    }

    proof fn lemma_de_spec_preserved(s1: StateM, s2: StateM, v: RawValue) {
    }

    fn from_value(de: Deserializer, st: &mut State) -> (r: Result<Self, CastError>) {
        de.deserialize_symbol::<Symbol>(st)
    }
}

impl<T: FromValue> FromValue for Option<T> {
    open spec fn de_spec(s: StateM, v: RawValue) -> Result<Datum, ErrModel> {
        if v is Nil {
            Ok(Datum::Nil)
        } else {
            T::de_spec(s, v)
        }
    }

    proof fn lemma_de_spec_preserved(s1: StateM, s2: StateM, v: RawValue) {
        T::lemma_de_spec_preserved(s1, s2, v);
    }

    fn from_value(de: Deserializer, st: &mut State) -> (r: Result<Self, CastError>) {
        de.deserialize_option::<T>(st)
    }
}

impl<T: FromValue> FromValue for Box<T> {
    open spec fn de_spec(s: StateM, v: RawValue) -> Result<Datum, ErrModel> {
        T::de_spec(s, v)
    }

    proof fn lemma_de_spec_preserved(s1: StateM, s2: StateM, v: RawValue) {
        T::lemma_de_spec_preserved(s1, s2, v);
    }

    fn from_value(de: Deserializer, st: &mut State) -> (r: Result<Self, CastError>) {
        match T::from_value(de, st) {
            Ok(x) => Ok(Box::new(x)),
            Err(e) => Err(e),
        }
    }
}

impl<T: FromValue> FromValue for std::rc::Rc<T> {
    open spec fn de_spec(s: StateM, v: RawValue) -> Result<Datum, ErrModel> {
        T::de_spec(s, v)
    }

    proof fn lemma_de_spec_preserved(s1: StateM, s2: StateM, v: RawValue) {
        T::lemma_de_spec_preserved(s1, s2, v);
    }

    fn from_value(de: Deserializer, st: &mut State) -> (r: Result<Self, CastError>) {
        match T::from_value(de, st) {
            Ok(x) => Ok(std::rc::Rc::new(x)),
            Err(e) => Err(e),
        }
    }
}

impl<T: FromValue> FromValue for std::sync::Arc<T> {
    open spec fn de_spec(s: StateM, v: RawValue) -> Result<Datum, ErrModel> {
        T::de_spec(s, v)
    }

    proof fn lemma_de_spec_preserved(s1: StateM, s2: StateM, v: RawValue) {
        T::lemma_de_spec_preserved(s1, s2, v);
    }

    fn from_value(de: Deserializer, st: &mut State) -> (r: Result<Self, CastError>) {
        match T::from_value(de, st) {
            Ok(x) => Ok(std::sync::Arc::new(x)),
            Err(e) => Err(e),
        }
    }
}

/// Relies on std's `TryFrom` conversion of a vector into an array: with
/// a matching length it succeeds and keeps the elements in order.
#[verifier::external_body]
fn vec_to_array<T, const N: usize>(v: Vec<T>) -> (r: [T; N])
    requires
        v@.len() == N,
    ensures
        r@ == v@,
{
    match v.try_into() {
        Ok(arr) => arr,
        Err(_) => loop {
        },
    }
}

impl<T: FromValue, const N: usize> FromValue for [T; N] {
    open spec fn de_spec(s: StateM, v: RawValue) -> Result<Datum, ErrModel> {
        match v {
            RawValue::Ary(i) => if i < s.arrays.len() {
                let elems = s.arrays[i as int];
                if elems.len() != N {
                    Err(ErrModel::Length(N as int, elems.len() as int))
                } else {
                    match column_de::<T>(s, elems, 0) {
                        Ok(ds) => Ok(Datum::Ary(ds)),
                        Err(e) => Err(e),
                    }
                }
            } else if N == 0 {
                Ok(Datum::Ary(Seq::empty()))
            } else {
                Err(ErrModel::Length(N as int, 0))
            },
            _ => if N == 0 {
                Ok(Datum::Ary(Seq::empty()))
            } else {
                Err(ErrModel::Length(N as int, 0))
            },
        }
    }

    proof fn lemma_de_spec_preserved(s1: StateM, s2: StateM, v: RawValue) {
        if v is Ary && (v->Ary_0 as int) < s1.arrays.len() {
            let i = v->Ary_0 as int;
            assert(s2.arrays[i] == s1.arrays[i]);
            lemma_column_de_preserved::<T>(s1, s2, s1.arrays[i], 0);
        }
    }

    fn from_value(de: Deserializer, st: &mut State) -> (r: Result<Self, CastError>) {
        let ghost s0 = old(st)@;
        let ghost raw = de@;
        let mut it = de.deserialize_seq::<T>(st);
        let n = it.len();
        if n != N {
            return Err(CastError::length(N, n));
        }
        let ghost src = it.inner().source();
        let mut out: Vec<T> = Vec::new();
        for k in 0..n
            invariant
                s0 == old(st)@,
                raw == de@,
                n == N,
                st@.inv(),
                s0.inv(),
                s0.preserved_in(st@),
                it.inner().wf(st@),
                it.inner().len_spec() == n,
                it.inner().idx() == k,
                it.inner().source() == src,
                match src {
                    Some(av) => av is Ary && raw == av && (av->Ary_0 as int) < s0.arrays.len()
                        && n == s0.arrays[av->Ary_0 as int].len(),
                    None => n == 0,
                },
                out@.len() == k,
                src matches Some(av) ==> ({
                    let elems = s0.arrays[av->Ary_0 as int];
                    let acc = Seq::new(out@.len(), |i: int| out@[i].datum());
                    match column_de::<T>(s0, elems, k as int) {
                        Ok(rest) => column_de::<T>(s0, elems, 0) == Ok::<_, ErrModel>(acc + rest),
                        Err(e) => column_de::<T>(s0, elems, 0) == Err::<Seq<Datum>, _>(e),
                    }
                }),
        {
            let ghost sk = st@;
            let ghost av = src->0;
            let ghost elems = s0.arrays[av->Ary_0 as int];
            let res = match it.next(st) {
                Some(res) => res,
                None => {
                    proof {
                        assert(false);
                    }
                    return Err(CastError::length(N, 0));
                },
            };
            proof {
                assert(sk.arrays[av->Ary_0 as int] == elems);
                assert(raw_valid(s0, elems[k as int]));
                T::lemma_de_spec_preserved(s0, sk, elems[k as int]);
            }
            match res {
                Ok(x) => {
                    let ghost out_old = out@;
                    let ghost d = x.datum();
                    proof {
                        assert(T::de_spec(s0, elems[k as int]) == Ok::<_, ErrModel>(d));
                    }
                    out.push(x);
                    proof {
                        let acc_old = Seq::new(out_old.len(), |i: int| out_old[i].datum());
                        let acc_new = Seq::new(out@.len(), |i: int| out@[i].datum());
                        assert(acc_new =~= acc_old.push(d));
                        match column_de::<T>(s0, elems, k + 1) {
                            Ok(ds) => {
                                assert(column_de::<T>(s0, elems, k as int) == Ok::<_, ErrModel>(
                                    seq![d] + ds,
                                ));
                                assert(acc_old + (seq![d] + ds) =~= acc_new + ds);
                            },
                            Err(e) => {
                                assert(column_de::<T>(s0, elems, k as int) == Err::<
                                    Seq<Datum>,
                                    _,
                                >(e));
                            },
                        }
                    }
                },
                Err(e) => {
                    proof {
                        assert(T::de_spec(s0, elems[k as int]) == Err::<Datum, _>(e@));
                        assert(column_de::<T>(s0, elems, k as int) == Err::<Seq<Datum>, _>(e@));
                    }
                    return Err(e);
                },
            }
        }
        let ghost out_view = out@;
        let arr: [T; N] = vec_to_array(out);
        proof {
            let acc = Seq::new(out_view.len(), |idx: int| out_view[idx].datum());
            assert(Seq::new(arr@.len(), |idx: int| arr@[idx].datum()) =~= acc);
            if src is Some {
                let av = src->0;
                let i = av->Ary_0 as int;
                let elems = s0.arrays[i];
                assert(column_de::<T>(s0, elems, n as int) == Ok::<_, ErrModel>(
                    Seq::<Datum>::empty(),
                ));
                assert(acc + Seq::<Datum>::empty() =~= acc);
                assert(Self::de_spec(s0, raw) == Ok::<_, ErrModel>(Datum::Ary(acc)));
            } else {
                assert(out_view.len() == 0);
                assert(acc =~= Seq::<Datum>::empty());
            }
        }
        Ok(arr)
    }
}

/// Element-wise extraction of an array column, from index `k` on: the
/// datums of the remaining elements, or the first element's error.
pub open spec fn column_de<T: FromValue>(s: StateM, elems: Seq<RawValue>, k: int) -> Result<
    Seq<Datum>,
    ErrModel,
>
    decreases elems.len() - k,
{
    if 0 <= k < elems.len() {
        match T::de_spec(s, elems[k]) {
            Err(e) => Err(e),
            Ok(d) => match column_de::<T>(s, elems, k + 1) {
                Err(e) => Err(e),
                Ok(ds) => Ok(seq![d] + ds),
            },
        }
    } else {
        Ok(Seq::empty())
    }
}

/// Column extraction only reads existing arena entries.
proof fn lemma_column_de_preserved<T: FromValue>(
    s1: StateM,
    s2: StateM,
    elems: Seq<RawValue>,
    k: int,
)
    requires
        s1.inv(),
        s1.preserved_in(s2),
        forall|j: int| 0 <= j < elems.len() ==> raw_valid(s1, #[trigger] elems[j]),
    ensures
        column_de::<T>(s1, elems, k) == column_de::<T>(s2, elems, k),
    decreases elems.len() - k,
{
    if 0 <= k < elems.len() {
        T::lemma_de_spec_preserved(s1, s2, elems[k]);
        lemma_column_de_preserved::<T>(s1, s2, elems, k + 1);
    }
}

/// A column whose every element extracts successfully extracts to
/// exactly its datums, in order.
pub proof fn lemma_column_de_all_ok<T: FromValue>(
    s: StateM,
    elems: Seq<RawValue>,
    ds: Seq<Datum>,
    k: int,
)
    requires
        elems.len() == ds.len(),
        0 <= k <= elems.len(),
        forall|j: int| k <= j < elems.len() ==> T::de_spec(s, #[trigger] elems[j]) == Ok::<
            _,
            ErrModel,
        >(ds[j]),
    ensures
        column_de::<T>(s, elems, k) == Ok::<_, ErrModel>(ds.skip(k)),
    decreases elems.len() - k,
{
    if k < elems.len() {
        lemma_column_de_all_ok::<T>(s, elems, ds, k + 1);
        assert(seq![ds[k]] + ds.skip(k + 1) =~= ds.skip(k));
    } else {
        assert(ds.skip(k) =~= Seq::<Datum>::empty());
    }
}

/// Lock-step extraction of two parallel columns, from index `k` on: the
/// datum pairs of the remaining entries, or the first failing
/// conversion's error, key before value at each index.
pub open spec fn entries_de<K: FromValue, V: FromValue>(
    s: StateM,
    kelems: Seq<RawValue>,
    velems: Seq<RawValue>,
    k: int,
) -> Result<Seq<(Datum, Datum)>, ErrModel>
    decreases kelems.len() - k,
{
    if 0 <= k < kelems.len() && k < velems.len() {
        match K::de_spec(s, kelems[k]) {
            Err(e) => Err(e),
            Ok(kd) => match V::de_spec(s, velems[k]) {
                Err(e) => Err(e),
                Ok(vd) => match entries_de::<K, V>(s, kelems, velems, k + 1) {
                    Err(e) => Err(e),
                    Ok(ps) => Ok(seq![(kd, vd)] + ps),
                },
            },
        }
    } else {
        Ok(Seq::empty())
    }
}

impl<T: FromValue> FromValue for Vec<T> {
    open spec fn de_spec(s: StateM, v: RawValue) -> Result<Datum, ErrModel> {
        match v {
            RawValue::Ary(i) => if i < s.arrays.len() {
                match column_de::<T>(s, s.arrays[i as int], 0) {
                    Ok(ds) => Ok(Datum::Ary(ds)),
                    Err(e) => Err(e),
                }
            } else {
                Ok(Datum::Ary(Seq::empty()))
            },
            _ => Ok(Datum::Ary(Seq::empty())),
        }
    }

    proof fn lemma_de_spec_preserved(s1: StateM, s2: StateM, v: RawValue) {
        if v is Ary && (v->Ary_0 as int) < s1.arrays.len() {
            let i = v->Ary_0 as int;
            assert(s2.arrays[i] == s1.arrays[i]);
            lemma_column_de_preserved::<T>(s1, s2, s1.arrays[i], 0);
        }
    }

    fn from_value(de: Deserializer, st: &mut State) -> (r: Result<Self, CastError>) {
        let ghost s0 = old(st)@;
        let ghost raw = de@;
        let mut it = de.deserialize_seq::<T>(st);
        let n = it.len();
        let ghost src = it.inner().source();
        let mut out: Vec<T> = Vec::new();
        for k in 0..n
            invariant
                s0 == old(st)@,
                raw == de@,
                st@.inv(),
                s0.inv(),
                s0.preserved_in(st@),
                it.inner().wf(st@),
                it.inner().len_spec() == n,
                it.inner().idx() == k,
                it.inner().source() == src,
                match src {
                    Some(av) => av is Ary && raw == av && (av->Ary_0 as int) < s0.arrays.len()
                        && n == s0.arrays[av->Ary_0 as int].len(),
                    None => n == 0,
                },
                out@.len() == k,
                src matches Some(av) ==> ({
                    let elems = s0.arrays[av->Ary_0 as int];
                    let acc = Seq::new(out@.len(), |i: int| out@[i].datum());
                    match column_de::<T>(s0, elems, k as int) {
                        Ok(rest) => column_de::<T>(s0, elems, 0) == Ok::<_, ErrModel>(acc + rest),
                        Err(e) => column_de::<T>(s0, elems, 0) == Err::<Seq<Datum>, _>(e),
                    }
                }),
        {
            let ghost sk = st@;
            let ghost av = src->0;
            let ghost elems = s0.arrays[av->Ary_0 as int];
            let res = match it.next(st) {
                Some(res) => res,
                None => {
                    proof {
                        assert(false);
                    }
                    return Err(CastError::length(0, 0));
                },
            };
            proof {
                assert(sk.arrays[src->0->Ary_0 as int] == elems);
                assert(raw_valid(s0, elems[k as int]));
                T::lemma_de_spec_preserved(s0, sk, elems[k as int]);
            }
            match res {
                Ok(x) => {
                    let ghost out_old = out@;
                    let ghost d = x.datum();
                    proof {
                        assert(T::de_spec(s0, elems[k as int]) == Ok::<_, ErrModel>(d));
                    }
                    out.push(x);
                    proof {
                        let acc_old = Seq::new(out_old.len(), |i: int| out_old[i].datum());
                        let acc_new = Seq::new(out@.len(), |i: int| out@[i].datum());
                        assert(acc_new =~= acc_old.push(d));
                        match column_de::<T>(s0, elems, k + 1) {
                            Ok(ds) => {
                                assert(column_de::<T>(s0, elems, k as int) == Ok::<_, ErrModel>(
                                    seq![d] + ds,
                                ));
                                assert(acc_old + (seq![d] + ds) =~= acc_new + ds);
                            },
                            Err(e) => {
                                assert(column_de::<T>(s0, elems, k as int) == Err::<
                                    Seq<Datum>,
                                    _,
                                >(e));
                            },
                        }
                    }
                },
                Err(e) => {
                    proof {
                        assert(T::de_spec(s0, elems[k as int]) == Err::<Datum, _>(e@));
                        assert(column_de::<T>(s0, elems, k as int) == Err::<Seq<Datum>, _>(e@));
                    }
                    return Err(e);
                },
            }
        }
        proof {
            if src is Some {
                let av = src->0;
                let i = av->Ary_0 as int;
                let elems = s0.arrays[i];
                let acc = Seq::new(out@.len(), |idx: int| out@[idx].datum());
                assert(column_de::<T>(s0, elems, n as int) == Ok::<_, ErrModel>(
                    Seq::<Datum>::empty(),
                ));
                assert(acc + Seq::<Datum>::empty() =~= acc);
                assert(Self::de_spec(s0, raw) == Ok::<_, ErrModel>(Datum::Ary(acc)));
            } else {
                assert(out@.len() == 0);
                assert(Seq::new(out@.len(), |idx: int| out@[idx].datum())
                    =~= Seq::<Datum>::empty());
            }
        }
        Ok(out)
    }
}

impl<A: FromValue> FromValue for (A,) {
    open spec fn de_spec(s: StateM, v: RawValue) -> Result<Datum, ErrModel> {
        match v {
            RawValue::Ary(i) => if i < s.arrays.len() {
                let elems = s.arrays[i as int];
                if elems.len() != 1 {
                    Err(ErrModel::Length(1, elems.len() as int))
                } else {
                    match A::de_spec(s, elems[0]) {
                        Err(e) => Err(e),
                        Ok(d0) => Ok(Datum::Ary(seq![d0])),
                    }
                }
            } else {
                Err(ErrModel::Length(1, 0))
            },
            _ => Err(ErrModel::Length(1, 0)),
        }
    }

    proof fn lemma_de_spec_preserved(s1: StateM, s2: StateM, v: RawValue) {
        if v is Ary && (v->Ary_0 as int) < s1.arrays.len() {
            let i = v->Ary_0 as int;
            let elems = s1.arrays[i];
            assert(s2.arrays[i] == elems);
            if elems.len() == 1 {
                assert(raw_valid(s1, elems[0]));
                A::lemma_de_spec_preserved(s1, s2, elems[0]);
            }
        }
    }

    fn from_value(de: Deserializer, st: &mut State) -> (r: Result<Self, CastError>) {
        let ghost s0 = old(st)@;
        let ghost raw = de@;
        let mut t = de.deserialize_tuple(st);
        let n = t.len();
        if n != 1 {
            return Err(CastError::length(1, n));
        }
        let a = match t.next_element::<A>(st) {
            Some(Ok(x)) => x,
            Some(Err(e)) => {
                return Err(e);
            },
            None => {
                proof {
                    assert(false);
                }
                return Err(CastError::length(1, 0));
            },
        };
        Ok((a,))
    }
}

impl<A: FromValue, B: FromValue> FromValue for (A, B) {
    open spec fn de_spec(s: StateM, v: RawValue) -> Result<Datum, ErrModel> {
        match v {
            RawValue::Ary(i) => if i < s.arrays.len() {
                let elems = s.arrays[i as int];
                if elems.len() != 2 {
                    Err(ErrModel::Length(2, elems.len() as int))
                } else {
                    match A::de_spec(s, elems[0]) {
                        Err(e) => Err(e),
                        Ok(d0) => match B::de_spec(s, elems[1]) {
                            Err(e) => Err(e),
                            Ok(d1) => Ok(Datum::Ary(seq![d0, d1])),
                        },
                    }
                }
            } else {
                Err(ErrModel::Length(2, 0))
            },
            _ => Err(ErrModel::Length(2, 0)),
        }
    }

    proof fn lemma_de_spec_preserved(s1: StateM, s2: StateM, v: RawValue) {
        if v is Ary && (v->Ary_0 as int) < s1.arrays.len() {
            let i = v->Ary_0 as int;
            let elems = s1.arrays[i];
            assert(s2.arrays[i] == elems);
            if elems.len() == 2 {
                assert(raw_valid(s1, elems[0]));
                assert(raw_valid(s1, elems[1]));
                A::lemma_de_spec_preserved(s1, s2, elems[0]);
                B::lemma_de_spec_preserved(s1, s2, elems[1]);
            }
        }
    }

    fn from_value(de: Deserializer, st: &mut State) -> (r: Result<Self, CastError>) {
        let ghost s0 = old(st)@;
        let ghost raw = de@;
        let mut t = de.deserialize_tuple(st);
        let n = t.len();
        if n != 2 {
            return Err(CastError::length(2, n));
        }
        let ghost elems = s0.arrays[raw->Ary_0 as int];
        let a = match t.next_element::<A>(st) {
            Some(Ok(x)) => x,
            Some(Err(e)) => {
                return Err(e);
            },
            None => {
                proof {
                    assert(false);
                }
                return Err(CastError::length(2, 0));
            },
        };
        let ghost s1 = st@;
        let b = match t.next_element::<B>(st) {
            Some(Ok(x)) => x,
            Some(Err(e)) => {
                proof {
                    assert(s1.arrays[raw->Ary_0 as int] == elems);
                    assert(raw_valid(s0, elems[1]));
                    B::lemma_de_spec_preserved(s0, s1, elems[1]);
                }
                return Err(e);
            },
            None => {
                proof {
                    assert(false);
                }
                return Err(CastError::length(2, 0));
            },
        };
        proof {
            assert(s1.arrays[raw->Ary_0 as int] == elems);
            assert(raw_valid(s0, elems[1]));
            B::lemma_de_spec_preserved(s0, s1, elems[1]);
        }
        Ok((a, b))
    }
}

impl<A: FromValue, B: FromValue, C: FromValue> FromValue for (A, B, C) {
    open spec fn de_spec(s: StateM, v: RawValue) -> Result<Datum, ErrModel> {
        match v {
            RawValue::Ary(i) => if i < s.arrays.len() {
                let elems = s.arrays[i as int];
                if elems.len() != 3 {
                    Err(ErrModel::Length(3, elems.len() as int))
                } else {
                    match A::de_spec(s, elems[0]) {
                        Err(e) => Err(e),
                        Ok(d0) => match B::de_spec(s, elems[1]) {
                            Err(e) => Err(e),
                            Ok(d1) => match C::de_spec(s, elems[2]) {
                                Err(e) => Err(e),
                                Ok(d2) => Ok(Datum::Ary(seq![d0, d1, d2])),
                            },
                        },
                    }
                }
            } else {
                Err(ErrModel::Length(3, 0))
            },
            _ => Err(ErrModel::Length(3, 0)),
        }
    }

    proof fn lemma_de_spec_preserved(s1: StateM, s2: StateM, v: RawValue) {
        if v is Ary && (v->Ary_0 as int) < s1.arrays.len() {
            let i = v->Ary_0 as int;
            let elems = s1.arrays[i];
            assert(s2.arrays[i] == elems);
            if elems.len() == 3 {
                assert(raw_valid(s1, elems[0]));
                assert(raw_valid(s1, elems[1]));
                assert(raw_valid(s1, elems[2]));
                A::lemma_de_spec_preserved(s1, s2, elems[0]);
                B::lemma_de_spec_preserved(s1, s2, elems[1]);
                C::lemma_de_spec_preserved(s1, s2, elems[2]);
            }
        }
    }

    fn from_value(de: Deserializer, st: &mut State) -> (r: Result<Self, CastError>) {
        let ghost s0 = old(st)@;
        let ghost raw = de@;
        let mut t = de.deserialize_tuple(st);
        let n = t.len();
        if n != 3 {
            return Err(CastError::length(3, n));
        }
        let ghost elems = s0.arrays[raw->Ary_0 as int];
        let a = match t.next_element::<A>(st) {
            Some(Ok(x)) => x,
            Some(Err(e)) => {
                return Err(e);
            },
            None => {
                proof {
                    assert(false);
                }
                return Err(CastError::length(3, 0));
            },
        };
        let ghost s1 = st@;
        let b = match t.next_element::<B>(st) {
            Some(Ok(x)) => x,
            Some(Err(e)) => {
                proof {
                    assert(s1.arrays[raw->Ary_0 as int] == elems);
                    assert(raw_valid(s0, elems[1]));
                    B::lemma_de_spec_preserved(s0, s1, elems[1]);
                }
                return Err(e);
            },
            None => {
                proof {
                    assert(false);
                }
                return Err(CastError::length(3, 0));
            },
        };
        let ghost s2 = st@;
        let c = match t.next_element::<C>(st) {
            Some(Ok(x)) => x,
            Some(Err(e)) => {
                proof {
                    assert(s1.arrays[raw->Ary_0 as int] == elems);
                    assert(s2.arrays[raw->Ary_0 as int] == elems);
                    assert(raw_valid(s0, elems[1]));
                    assert(raw_valid(s0, elems[2]));
                    B::lemma_de_spec_preserved(s0, s1, elems[1]);
                    C::lemma_de_spec_preserved(s0, s2, elems[2]);
                    crate::state::lemma_preserved_trans(s0, s1, s2);
                }
                return Err(e);
            },
            None => {
                proof {
                    assert(false);
                }
                return Err(CastError::length(3, 0));
            },
        };
        proof {
            assert(s1.arrays[raw->Ary_0 as int] == elems);
            assert(s2.arrays[raw->Ary_0 as int] == elems);
            assert(raw_valid(s0, elems[1]));
            assert(raw_valid(s0, elems[2]));
            B::lemma_de_spec_preserved(s0, s1, elems[1]);
            C::lemma_de_spec_preserved(s0, s2, elems[2]);
            crate::state::lemma_preserved_trans(s0, s1, s2);
        }
        Ok((a, b, c))
    }
}


impl<T: FromValue> FromValue for VecDeque<T> {
    open spec fn de_spec(s: StateM, v: RawValue) -> Result<Datum, ErrModel> {
        <Vec<T> as FromValue>::de_spec(s, v)
    }

    proof fn lemma_de_spec_preserved(s1: StateM, s2: StateM, v: RawValue) {
        <Vec<T> as FromValue>::lemma_de_spec_preserved(s1, s2, v);
    }

    fn from_value(de: Deserializer, st: &mut State) -> (r: Result<Self, CastError>) {
        let out = match <Vec<T> as FromValue>::from_value(de, st) {
            Ok(out) => out,
            Err(e) => {
                return Err(e);
            },
        };
        let ghost out_view = out@;
        let mut rest = out;
        let mut deque: VecDeque<T> = VecDeque::new();
        proof {
            assert(out_view.take(out_view.len() as int) =~= out_view);
            assert(out_view.skip(out_view.len() as int) =~= Seq::<T>::empty());
        }
        while rest.len() > 0
            invariant
                rest@.len() <= out_view.len(),
                rest@ == out_view.take(rest@.len() as int),
                deque@ == out_view.skip(rest@.len() as int),
            decreases rest@.len(),
        {
            let ghost len0 = rest@.len() as int;
            match rest.pop() {
                Some(x) => {
                    deque.push_front(x);
                    proof {
                        assert(rest@ =~= out_view.take(len0 - 1));
                        assert(x == out_view[len0 - 1]);
                        assert(deque@ =~= out_view.skip(len0 - 1));
                    }
                },
                None => {
                    proof {
                        assert(false);
                    }
                },
            }
        }
        proof {
            assert(deque@ =~= out_view);
            assert(Seq::new(deque@.len(), |i: int| deque@[i].datum()) =~= Seq::new(
                out_view.len(),
                |i: int| out_view[i].datum(),
            ));
        }
        Ok(deque)
    }
}

/// One tuple element, read at a later state of the same conversion:
/// the array is unchanged, the element handle is valid, and its
/// extraction reads the same.
proof fn lemma_tuple_elem_bridge<T: FromValue>(
    s0: StateM,
    sk: StateM,
    elems: Seq<RawValue>,
    raw: RawValue,
    j: int,
)
    requires
        s0.inv(),
        raw is Ary,
        (raw->Ary_0 as int) < s0.arrays.len(),
        elems == s0.arrays[raw->Ary_0 as int],
        0 <= j < elems.len(),
        s0.preserved_in(sk),
    ensures
        sk.arrays[raw->Ary_0 as int] == elems,
        raw_valid(s0, elems[j]),
        T::de_spec(s0, elems[j]) == T::de_spec(sk, elems[j]),
{
    assert(raw_valid(s0, elems[j]));
    T::lemma_de_spec_preserved(s0, sk, elems[j]);
}

impl<A: FromValue, B: FromValue, C: FromValue, D: FromValue> FromValue for (A, B, C, D) {
    open spec fn de_spec(s: StateM, v: RawValue) -> Result<Datum, ErrModel> {
        match v {
            RawValue::Ary(i) => if i < s.arrays.len() {
                let elems = s.arrays[i as int];
                if elems.len() != 4 {
                    Err(ErrModel::Length(4, elems.len() as int))
                } else {
                    match A::de_spec(s, elems[0]) {
                        Err(e) => Err(e),
                        Ok(d0) => match B::de_spec(s, elems[1]) {
                            Err(e) => Err(e),
                            Ok(d1) => match C::de_spec(s, elems[2]) {
                                Err(e) => Err(e),
                                Ok(d2) => match D::de_spec(s, elems[3]) {
                                    Err(e) => Err(e),
                                    Ok(d3) => Ok(Datum::Ary(seq![d0, d1, d2, d3])),
                                },
                            },
                        },
                    }
                }
            } else {
                Err(ErrModel::Length(4, 0))
            },
            _ => Err(ErrModel::Length(4, 0)),
        }
    }

    proof fn lemma_de_spec_preserved(s1: StateM, s2: StateM, v: RawValue) {
        if v is Ary && (v->Ary_0 as int) < s1.arrays.len() {
            let i = v->Ary_0 as int;
            let elems = s1.arrays[i];
            assert(s2.arrays[i] == elems);
            if elems.len() == 4 {
                assert(raw_valid(s1, elems[0]));
                assert(raw_valid(s1, elems[1]));
                assert(raw_valid(s1, elems[2]));
                assert(raw_valid(s1, elems[3]));
                A::lemma_de_spec_preserved(s1, s2, elems[0]);
                B::lemma_de_spec_preserved(s1, s2, elems[1]);
                C::lemma_de_spec_preserved(s1, s2, elems[2]);
                D::lemma_de_spec_preserved(s1, s2, elems[3]);
            }
        }
    }

    fn from_value(de: Deserializer, st: &mut State) -> (r: Result<Self, CastError>) {
        let ghost s0 = old(st)@;
        let ghost raw = de@;
        let mut t = de.deserialize_tuple(st);
        let n = t.len();
        if n != 4 {
            return Err(CastError::length(4, n));
        }
        let ghost elems = s0.arrays[raw->Ary_0 as int];
        let a = match t.next_element::<A>(st) {
            Some(Ok(x)) => x,
            Some(Err(e)) => {
                return Err(e);
            },
            None => {
                proof {
                    assert(false);
                }
                return Err(CastError::length(4, 0));
            },
        };
        let ghost s1 = st@;
        let b = match t.next_element::<B>(st) {
            Some(Ok(x)) => x,
            Some(Err(e)) => {
                proof {
                    lemma_tuple_elem_bridge::<B>(s0, s1, elems, raw, 1);
                }
                return Err(e);
            },
            None => {
                proof {
                    assert(false);
                }
                return Err(CastError::length(4, 0));
            },
        };
        let ghost s2 = st@;
        let c = match t.next_element::<C>(st) {
            Some(Ok(x)) => x,
            Some(Err(e)) => {
                proof {
                    crate::state::lemma_preserved_trans(s0, s1, s2);
                    lemma_tuple_elem_bridge::<B>(s0, s1, elems, raw, 1);
                    lemma_tuple_elem_bridge::<C>(s0, s2, elems, raw, 2);
                }
                return Err(e);
            },
            None => {
                proof {
                    assert(false);
                }
                return Err(CastError::length(4, 0));
            },
        };
        let ghost s3 = st@;
        let d = match t.next_element::<D>(st) {
            Some(Ok(x)) => x,
            Some(Err(e)) => {
                proof {
                    crate::state::lemma_preserved_trans(s0, s1, s2);
                    crate::state::lemma_preserved_trans(s0, s2, s3);
                    lemma_tuple_elem_bridge::<B>(s0, s1, elems, raw, 1);
                    lemma_tuple_elem_bridge::<C>(s0, s2, elems, raw, 2);
                    lemma_tuple_elem_bridge::<D>(s0, s3, elems, raw, 3);
                }
                return Err(e);
            },
            None => {
                proof {
                    assert(false);
                }
                return Err(CastError::length(4, 0));
            },
        };
        proof {
            crate::state::lemma_preserved_trans(s0, s1, s2);
            crate::state::lemma_preserved_trans(s0, s2, s3);
            lemma_tuple_elem_bridge::<B>(s0, s1, elems, raw, 1);
            lemma_tuple_elem_bridge::<C>(s0, s2, elems, raw, 2);
            lemma_tuple_elem_bridge::<D>(s0, s3, elems, raw, 3);
        }
        Ok((a, b, c, d))
    }
}


impl<A: FromValue, B: FromValue, C: FromValue, D: FromValue, E: FromValue> FromValue for (A, B, C, D, E) {
    open spec fn de_spec(s: StateM, v: RawValue) -> Result<Datum, ErrModel> {
        match v {
            RawValue::Ary(i) => if i < s.arrays.len() {
                let elems = s.arrays[i as int];
                if elems.len() != 5 {
                    Err(ErrModel::Length(5, elems.len() as int))
                } else {
                    match A::de_spec(s, elems[0]) {
                        Err(e) => Err(e),
                        Ok(d0) => match B::de_spec(s, elems[1]) {
                        Err(e) => Err(e),
                        Ok(d1) => match C::de_spec(s, elems[2]) {
                        Err(e) => Err(e),
                        Ok(d2) => match D::de_spec(s, elems[3]) {
                        Err(e) => Err(e),
                        Ok(d3) => match E::de_spec(s, elems[4]) {
                        Err(e) => Err(e),
                        Ok(d4) => Ok(Datum::Ary(seq![d0, d1, d2, d3, d4])),
                    },
                    },
                    },
                    },
                    }
                }
            } else {
                Err(ErrModel::Length(5, 0))
            },
            _ => Err(ErrModel::Length(5, 0)),
        }
    }

    proof fn lemma_de_spec_preserved(s1: StateM, s2: StateM, v: RawValue) {
        if v is Ary && (v->Ary_0 as int) < s1.arrays.len() {
            let i = v->Ary_0 as int;
            let elems = s1.arrays[i];
            assert(s2.arrays[i] == elems);
            if elems.len() == 5 {
                assert(raw_valid(s1, elems[0]));
                assert(raw_valid(s1, elems[1]));
                assert(raw_valid(s1, elems[2]));
                assert(raw_valid(s1, elems[3]));
                assert(raw_valid(s1, elems[4]));
                A::lemma_de_spec_preserved(s1, s2, elems[0]);
                B::lemma_de_spec_preserved(s1, s2, elems[1]);
                C::lemma_de_spec_preserved(s1, s2, elems[2]);
                D::lemma_de_spec_preserved(s1, s2, elems[3]);
                E::lemma_de_spec_preserved(s1, s2, elems[4]);
            }
        }
    }

    fn from_value(de: Deserializer, st: &mut State) -> (r: Result<Self, CastError>) {
        let ghost s0 = old(st)@;
        let ghost raw = de@;
        let mut t = de.deserialize_tuple(st);
        let n = t.len();
        if n != 5 {
            return Err(CastError::length(5, n));
        }
        let ghost elems = s0.arrays[raw->Ary_0 as int];
        let a = match t.next_element::<A>(st) {
            Some(Ok(x)) => x,
            Some(Err(err)) => {
                return Err(err);
            },
            None => {
                proof {
                    assert(false);
                }
                return Err(CastError::length(5, 0));
            },
        };
        let ghost s1 = st@;
        let b = match t.next_element::<B>(st) {
            Some(Ok(x)) => x,
            Some(Err(err)) => {
                proof {
                    lemma_tuple_elem_bridge::<B>(s0, s1, elems, raw, 1);
                }
                return Err(err);
            },
            None => {
                proof {
                    assert(false);
                }
                return Err(CastError::length(5, 0));
            },
        };
        let ghost s2 = st@;
        let c = match t.next_element::<C>(st) {
            Some(Ok(x)) => x,
            Some(Err(err)) => {
                proof {
                    crate::state::lemma_preserved_trans(s0, s1, s2);
                    lemma_tuple_elem_bridge::<B>(s0, s1, elems, raw, 1);
                    lemma_tuple_elem_bridge::<C>(s0, s2, elems, raw, 2);
                }
                return Err(err);
            },
            None => {
                proof {
                    assert(false);
                }
                return Err(CastError::length(5, 0));
            },
        };
        let ghost s3 = st@;
        let d = match t.next_element::<D>(st) {
            Some(Ok(x)) => x,
            Some(Err(err)) => {
                proof {
                    crate::state::lemma_preserved_trans(s0, s1, s2);
                    crate::state::lemma_preserved_trans(s0, s2, s3);
                    lemma_tuple_elem_bridge::<B>(s0, s1, elems, raw, 1);
                    lemma_tuple_elem_bridge::<C>(s0, s2, elems, raw, 2);
                    lemma_tuple_elem_bridge::<D>(s0, s3, elems, raw, 3);
                }
                return Err(err);
            },
            None => {
                proof {
                    assert(false);
                }
                return Err(CastError::length(5, 0));
            },
        };
        let ghost s4 = st@;
        let e = match t.next_element::<E>(st) {
            Some(Ok(x)) => x,
            Some(Err(err)) => {
                proof {
                    crate::state::lemma_preserved_trans(s0, s1, s2);
                    crate::state::lemma_preserved_trans(s0, s2, s3);
                    crate::state::lemma_preserved_trans(s0, s3, s4);
                    lemma_tuple_elem_bridge::<B>(s0, s1, elems, raw, 1);
                    lemma_tuple_elem_bridge::<C>(s0, s2, elems, raw, 2);
                    lemma_tuple_elem_bridge::<D>(s0, s3, elems, raw, 3);
                    lemma_tuple_elem_bridge::<E>(s0, s4, elems, raw, 4);
                }
                return Err(err);
            },
            None => {
                proof {
                    assert(false);
                }
                return Err(CastError::length(5, 0));
            },
        };
        proof {
            crate::state::lemma_preserved_trans(s0, s1, s2);
            crate::state::lemma_preserved_trans(s0, s2, s3);
            crate::state::lemma_preserved_trans(s0, s3, s4);
            lemma_tuple_elem_bridge::<B>(s0, s1, elems, raw, 1);
            lemma_tuple_elem_bridge::<C>(s0, s2, elems, raw, 2);
            lemma_tuple_elem_bridge::<D>(s0, s3, elems, raw, 3);
            lemma_tuple_elem_bridge::<E>(s0, s4, elems, raw, 4);
        }
        Ok((a, b, c, d, e))
    }
}

impl<A: FromValue, B: FromValue, C: FromValue, D: FromValue, E: FromValue, F: FromValue> FromValue for (A, B, C, D, E, F) {
    open spec fn de_spec(s: StateM, v: RawValue) -> Result<Datum, ErrModel> {
        match v {
            RawValue::Ary(i) => if i < s.arrays.len() {
                let elems = s.arrays[i as int];
                if elems.len() != 6 {
                    Err(ErrModel::Length(6, elems.len() as int))
                } else {
                    match A::de_spec(s, elems[0]) {
                        Err(e) => Err(e),
                        Ok(d0) => match B::de_spec(s, elems[1]) {
                        Err(e) => Err(e),
                        Ok(d1) => match C::de_spec(s, elems[2]) {
                        Err(e) => Err(e),
                        Ok(d2) => match D::de_spec(s, elems[3]) {
                        Err(e) => Err(e),
                        Ok(d3) => match E::de_spec(s, elems[4]) {
                        Err(e) => Err(e),
                        Ok(d4) => match F::de_spec(s, elems[5]) {
                        Err(e) => Err(e),
                        Ok(d5) => Ok(Datum::Ary(seq![d0, d1, d2, d3, d4, d5])),
                    },
                    },
                    },
                    },
                    },
                    }
                }
            } else {
                Err(ErrModel::Length(6, 0))
            },
            _ => Err(ErrModel::Length(6, 0)),
        }
    }

    proof fn lemma_de_spec_preserved(s1: StateM, s2: StateM, v: RawValue) {
        if v is Ary && (v->Ary_0 as int) < s1.arrays.len() {
            let i = v->Ary_0 as int;
            let elems = s1.arrays[i];
            assert(s2.arrays[i] == elems);
            if elems.len() == 6 {
                assert(raw_valid(s1, elems[0]));
                assert(raw_valid(s1, elems[1]));
                assert(raw_valid(s1, elems[2]));
                assert(raw_valid(s1, elems[3]));
                assert(raw_valid(s1, elems[4]));
                assert(raw_valid(s1, elems[5]));
                A::lemma_de_spec_preserved(s1, s2, elems[0]);
                B::lemma_de_spec_preserved(s1, s2, elems[1]);
                C::lemma_de_spec_preserved(s1, s2, elems[2]);
                D::lemma_de_spec_preserved(s1, s2, elems[3]);
                E::lemma_de_spec_preserved(s1, s2, elems[4]);
                F::lemma_de_spec_preserved(s1, s2, elems[5]);
            }
        }
    }

    fn from_value(de: Deserializer, st: &mut State) -> (r: Result<Self, CastError>) {
        let ghost s0 = old(st)@;
        let ghost raw = de@;
        let mut t = de.deserialize_tuple(st);
        let n = t.len();
        if n != 6 {
            return Err(CastError::length(6, n));
        }
        let ghost elems = s0.arrays[raw->Ary_0 as int];
        let a = match t.next_element::<A>(st) {
            Some(Ok(x)) => x,
            Some(Err(err)) => {
                return Err(err);
            },
            None => {
                proof {
                    assert(false);
                }
                return Err(CastError::length(6, 0));
            },
        };
        let ghost s1 = st@;
        let b = match t.next_element::<B>(st) {
            Some(Ok(x)) => x,
            Some(Err(err)) => {
                proof {
                    lemma_tuple_elem_bridge::<B>(s0, s1, elems, raw, 1);
                }
                return Err(err);
            },
            None => {
                proof {
                    assert(false);
                }
                return Err(CastError::length(6, 0));
            },
        };
        let ghost s2 = st@;
        let c = match t.next_element::<C>(st) {
            Some(Ok(x)) => x,
            Some(Err(err)) => {
                proof {
                    crate::state::lemma_preserved_trans(s0, s1, s2);
                    lemma_tuple_elem_bridge::<B>(s0, s1, elems, raw, 1);
                    lemma_tuple_elem_bridge::<C>(s0, s2, elems, raw, 2);
                }
                return Err(err);
            },
            None => {
                proof {
                    assert(false);
                }
                return Err(CastError::length(6, 0));
            },
        };
        let ghost s3 = st@;
        let d = match t.next_element::<D>(st) {
            Some(Ok(x)) => x,
            Some(Err(err)) => {
                proof {
                    crate::state::lemma_preserved_trans(s0, s1, s2);
                    crate::state::lemma_preserved_trans(s0, s2, s3);
                    lemma_tuple_elem_bridge::<B>(s0, s1, elems, raw, 1);
                    lemma_tuple_elem_bridge::<C>(s0, s2, elems, raw, 2);
                    lemma_tuple_elem_bridge::<D>(s0, s3, elems, raw, 3);
                }
                return Err(err);
            },
            None => {
                proof {
                    assert(false);
                }
                return Err(CastError::length(6, 0));
            },
        };
        let ghost s4 = st@;
        let e = match t.next_element::<E>(st) {
            Some(Ok(x)) => x,
            Some(Err(err)) => {
                proof {
                    crate::state::lemma_preserved_trans(s0, s1, s2);
                    crate::state::lemma_preserved_trans(s0, s2, s3);
                    crate::state::lemma_preserved_trans(s0, s3, s4);
                    lemma_tuple_elem_bridge::<B>(s0, s1, elems, raw, 1);
                    lemma_tuple_elem_bridge::<C>(s0, s2, elems, raw, 2);
                    lemma_tuple_elem_bridge::<D>(s0, s3, elems, raw, 3);
                    lemma_tuple_elem_bridge::<E>(s0, s4, elems, raw, 4);
                }
                return Err(err);
            },
            None => {
                proof {
                    assert(false);
                }
                return Err(CastError::length(6, 0));
            },
        };
        let ghost s5 = st@;
        let f = match t.next_element::<F>(st) {
            Some(Ok(x)) => x,
            Some(Err(err)) => {
                proof {
                    crate::state::lemma_preserved_trans(s0, s1, s2);
                    crate::state::lemma_preserved_trans(s0, s2, s3);
                    crate::state::lemma_preserved_trans(s0, s3, s4);
                    crate::state::lemma_preserved_trans(s0, s4, s5);
                    lemma_tuple_elem_bridge::<B>(s0, s1, elems, raw, 1);
                    lemma_tuple_elem_bridge::<C>(s0, s2, elems, raw, 2);
                    lemma_tuple_elem_bridge::<D>(s0, s3, elems, raw, 3);
                    lemma_tuple_elem_bridge::<E>(s0, s4, elems, raw, 4);
                    lemma_tuple_elem_bridge::<F>(s0, s5, elems, raw, 5);
                }
                return Err(err);
            },
            None => {
                proof {
                    assert(false);
                }
                return Err(CastError::length(6, 0));
            },
        };
        proof {
            crate::state::lemma_preserved_trans(s0, s1, s2);
            crate::state::lemma_preserved_trans(s0, s2, s3);
            crate::state::lemma_preserved_trans(s0, s3, s4);
            crate::state::lemma_preserved_trans(s0, s4, s5);
            lemma_tuple_elem_bridge::<B>(s0, s1, elems, raw, 1);
            lemma_tuple_elem_bridge::<C>(s0, s2, elems, raw, 2);
            lemma_tuple_elem_bridge::<D>(s0, s3, elems, raw, 3);
            lemma_tuple_elem_bridge::<E>(s0, s4, elems, raw, 4);
            lemma_tuple_elem_bridge::<F>(s0, s5, elems, raw, 5);
        }
        Ok((a, b, c, d, e, f))
    }
}


impl<A: FromValue, B: FromValue, C: FromValue, D: FromValue, E: FromValue, F: FromValue, G: FromValue> FromValue for (A, B, C, D, E, F, G) {
    open spec fn de_spec(s: StateM, v: RawValue) -> Result<Datum, ErrModel> {
        match v {
            RawValue::Ary(i) => if i < s.arrays.len() {
                let elems = s.arrays[i as int];
                if elems.len() != 7 {
                    Err(ErrModel::Length(7, elems.len() as int))
                } else {
                    match A::de_spec(s, elems[0]) {
                        Err(e) => Err(e),
                        Ok(d0) => match B::de_spec(s, elems[1]) {
                        Err(e) => Err(e),
                        Ok(d1) => match C::de_spec(s, elems[2]) {
                        Err(e) => Err(e),
                        Ok(d2) => match D::de_spec(s, elems[3]) {
                        Err(e) => Err(e),
                        Ok(d3) => match E::de_spec(s, elems[4]) {
                        Err(e) => Err(e),
                        Ok(d4) => match F::de_spec(s, elems[5]) {
                        Err(e) => Err(e),
                        Ok(d5) => match G::de_spec(s, elems[6]) {
                        Err(e) => Err(e),
                        Ok(d6) => Ok(Datum::Ary(seq![d0, d1, d2, d3, d4, d5, d6])),
                    },
                    },
                    },
                    },
                    },
                    },
                    }
                }
            } else {
                Err(ErrModel::Length(7, 0))
            },
            _ => Err(ErrModel::Length(7, 0)),
        }
    }

    proof fn lemma_de_spec_preserved(s1: StateM, s2: StateM, v: RawValue) {
        if v is Ary && (v->Ary_0 as int) < s1.arrays.len() {
            let i = v->Ary_0 as int;
            let elems = s1.arrays[i];
            assert(s2.arrays[i] == elems);
            if elems.len() == 7 {
                assert(raw_valid(s1, elems[0]));
                assert(raw_valid(s1, elems[1]));
                assert(raw_valid(s1, elems[2]));
                assert(raw_valid(s1, elems[3]));
                assert(raw_valid(s1, elems[4]));
                assert(raw_valid(s1, elems[5]));
                assert(raw_valid(s1, elems[6]));
                A::lemma_de_spec_preserved(s1, s2, elems[0]);
                B::lemma_de_spec_preserved(s1, s2, elems[1]);
                C::lemma_de_spec_preserved(s1, s2, elems[2]);
                D::lemma_de_spec_preserved(s1, s2, elems[3]);
                E::lemma_de_spec_preserved(s1, s2, elems[4]);
                F::lemma_de_spec_preserved(s1, s2, elems[5]);
                G::lemma_de_spec_preserved(s1, s2, elems[6]);
            }
        }
    }

    fn from_value(de: Deserializer, st: &mut State) -> (r: Result<Self, CastError>) {
        let ghost s0 = old(st)@;
        let ghost raw = de@;
        let mut t = de.deserialize_tuple(st);
        let n = t.len();
        if n != 7 {
            return Err(CastError::length(7, n));
        }
        let ghost elems = s0.arrays[raw->Ary_0 as int];
        let el0 = match t.next_element::<A>(st) {
            Some(Ok(x)) => x,
            Some(Err(err)) => {
                return Err(err);
            },
            None => {
                proof {
                    assert(false);
                }
                return Err(CastError::length(7, 0));
            },
        };
        let ghost s1 = st@;
        let el1 = match t.next_element::<B>(st) {
            Some(Ok(x)) => x,
            Some(Err(err)) => {
                proof {
                    lemma_tuple_elem_bridge::<B>(s0, s1, elems, raw, 1);
                }
                return Err(err);
            },
            None => {
                proof {
                    assert(false);
                }
                return Err(CastError::length(7, 0));
            },
        };
        let ghost s2 = st@;
        let el2 = match t.next_element::<C>(st) {
            Some(Ok(x)) => x,
            Some(Err(err)) => {
                proof {
                    crate::state::lemma_preserved_trans(s0, s1, s2);
                    lemma_tuple_elem_bridge::<B>(s0, s1, elems, raw, 1);
                    lemma_tuple_elem_bridge::<C>(s0, s2, elems, raw, 2);
                }
                return Err(err);
            },
            None => {
                proof {
                    assert(false);
                }
                return Err(CastError::length(7, 0));
            },
        };
        let ghost s3 = st@;
        let el3 = match t.next_element::<D>(st) {
            Some(Ok(x)) => x,
            Some(Err(err)) => {
                proof {
                    crate::state::lemma_preserved_trans(s0, s1, s2);
                    crate::state::lemma_preserved_trans(s0, s2, s3);
                    lemma_tuple_elem_bridge::<B>(s0, s1, elems, raw, 1);
                    lemma_tuple_elem_bridge::<C>(s0, s2, elems, raw, 2);
                    lemma_tuple_elem_bridge::<D>(s0, s3, elems, raw, 3);
                }
                return Err(err);
            },
            None => {
                proof {
                    assert(false);
                }
                return Err(CastError::length(7, 0));
            },
        };
        let ghost s4 = st@;
        let el4 = match t.next_element::<E>(st) {
            Some(Ok(x)) => x,
            Some(Err(err)) => {
                proof {
                    crate::state::lemma_preserved_trans(s0, s1, s2);
                    crate::state::lemma_preserved_trans(s0, s2, s3);
                    crate::state::lemma_preserved_trans(s0, s3, s4);
                    lemma_tuple_elem_bridge::<B>(s0, s1, elems, raw, 1);
                    lemma_tuple_elem_bridge::<C>(s0, s2, elems, raw, 2);
                    lemma_tuple_elem_bridge::<D>(s0, s3, elems, raw, 3);
                    lemma_tuple_elem_bridge::<E>(s0, s4, elems, raw, 4);
                }
                return Err(err);
            },
            None => {
                proof {
                    assert(false);
                }
                return Err(CastError::length(7, 0));
            },
        };
        let ghost s5 = st@;
        let el5 = match t.next_element::<F>(st) {
            Some(Ok(x)) => x,
            Some(Err(err)) => {
                proof {
                    crate::state::lemma_preserved_trans(s0, s1, s2);
                    crate::state::lemma_preserved_trans(s0, s2, s3);
                    crate::state::lemma_preserved_trans(s0, s3, s4);
                    crate::state::lemma_preserved_trans(s0, s4, s5);
                    lemma_tuple_elem_bridge::<B>(s0, s1, elems, raw, 1);
                    lemma_tuple_elem_bridge::<C>(s0, s2, elems, raw, 2);
                    lemma_tuple_elem_bridge::<D>(s0, s3, elems, raw, 3);
                    lemma_tuple_elem_bridge::<E>(s0, s4, elems, raw, 4);
                    lemma_tuple_elem_bridge::<F>(s0, s5, elems, raw, 5);
                }
                return Err(err);
            },
            None => {
                proof {
                    assert(false);
                }
                return Err(CastError::length(7, 0));
            },
        };
        let ghost s6 = st@;
        let el6 = match t.next_element::<G>(st) {
            Some(Ok(x)) => x,
            Some(Err(err)) => {
                proof {
                    crate::state::lemma_preserved_trans(s0, s1, s2);
                    crate::state::lemma_preserved_trans(s0, s2, s3);
                    crate::state::lemma_preserved_trans(s0, s3, s4);
                    crate::state::lemma_preserved_trans(s0, s4, s5);
                    crate::state::lemma_preserved_trans(s0, s5, s6);
                    lemma_tuple_elem_bridge::<B>(s0, s1, elems, raw, 1);
                    lemma_tuple_elem_bridge::<C>(s0, s2, elems, raw, 2);
                    lemma_tuple_elem_bridge::<D>(s0, s3, elems, raw, 3);
                    lemma_tuple_elem_bridge::<E>(s0, s4, elems, raw, 4);
                    lemma_tuple_elem_bridge::<F>(s0, s5, elems, raw, 5);
                    lemma_tuple_elem_bridge::<G>(s0, s6, elems, raw, 6);
                }
                return Err(err);
            },
            None => {
                proof {
                    assert(false);
                }
                return Err(CastError::length(7, 0));
            },
        };
        proof {
            crate::state::lemma_preserved_trans(s0, s1, s2);
            crate::state::lemma_preserved_trans(s0, s2, s3);
            crate::state::lemma_preserved_trans(s0, s3, s4);
            crate::state::lemma_preserved_trans(s0, s4, s5);
            crate::state::lemma_preserved_trans(s0, s5, s6);
            lemma_tuple_elem_bridge::<B>(s0, s1, elems, raw, 1);
            lemma_tuple_elem_bridge::<C>(s0, s2, elems, raw, 2);
            lemma_tuple_elem_bridge::<D>(s0, s3, elems, raw, 3);
            lemma_tuple_elem_bridge::<E>(s0, s4, elems, raw, 4);
            lemma_tuple_elem_bridge::<F>(s0, s5, elems, raw, 5);
            lemma_tuple_elem_bridge::<G>(s0, s6, elems, raw, 6);
        }
        Ok((el0, el1, el2, el3, el4, el5, el6))
    }
}

impl<A: FromValue, B: FromValue, C: FromValue, D: FromValue, E: FromValue, F: FromValue, G: FromValue, H: FromValue> FromValue for (A, B, C, D, E, F, G, H) {
    open spec fn de_spec(s: StateM, v: RawValue) -> Result<Datum, ErrModel> {
        match v {
            RawValue::Ary(i) => if i < s.arrays.len() {
                let elems = s.arrays[i as int];
                if elems.len() != 8 {
                    Err(ErrModel::Length(8, elems.len() as int))
                } else {
                    match A::de_spec(s, elems[0]) {
                        Err(e) => Err(e),
                        Ok(d0) => match B::de_spec(s, elems[1]) {
                        Err(e) => Err(e),
                        Ok(d1) => match C::de_spec(s, elems[2]) {
                        Err(e) => Err(e),
                        Ok(d2) => match D::de_spec(s, elems[3]) {
                        Err(e) => Err(e),
                        Ok(d3) => match E::de_spec(s, elems[4]) {
                        Err(e) => Err(e),
                        Ok(d4) => match F::de_spec(s, elems[5]) {
                        Err(e) => Err(e),
                        Ok(d5) => match G::de_spec(s, elems[6]) {
                        Err(e) => Err(e),
                        Ok(d6) => match H::de_spec(s, elems[7]) {
                        Err(e) => Err(e),
                        Ok(d7) => Ok(Datum::Ary(seq![d0, d1, d2, d3, d4, d5, d6, d7])),
                    },
                    },
                    },
                    },
                    },
                    },
                    },
                    }
                }
            } else {
                Err(ErrModel::Length(8, 0))
            },
            _ => Err(ErrModel::Length(8, 0)),
        }
    }

    proof fn lemma_de_spec_preserved(s1: StateM, s2: StateM, v: RawValue) {
        if v is Ary && (v->Ary_0 as int) < s1.arrays.len() {
            let i = v->Ary_0 as int;
            let elems = s1.arrays[i];
            assert(s2.arrays[i] == elems);
            if elems.len() == 8 {
                assert(raw_valid(s1, elems[0]));
                assert(raw_valid(s1, elems[1]));
                assert(raw_valid(s1, elems[2]));
                assert(raw_valid(s1, elems[3]));
                assert(raw_valid(s1, elems[4]));
                assert(raw_valid(s1, elems[5]));
                assert(raw_valid(s1, elems[6]));
                assert(raw_valid(s1, elems[7]));
                A::lemma_de_spec_preserved(s1, s2, elems[0]);
                B::lemma_de_spec_preserved(s1, s2, elems[1]);
                C::lemma_de_spec_preserved(s1, s2, elems[2]);
                D::lemma_de_spec_preserved(s1, s2, elems[3]);
                E::lemma_de_spec_preserved(s1, s2, elems[4]);
                F::lemma_de_spec_preserved(s1, s2, elems[5]);
                G::lemma_de_spec_preserved(s1, s2, elems[6]);
                H::lemma_de_spec_preserved(s1, s2, elems[7]);
            }
        }
    }

    fn from_value(de: Deserializer, st: &mut State) -> (r: Result<Self, CastError>) {
        let ghost s0 = old(st)@;
        let ghost raw = de@;
        let mut t = de.deserialize_tuple(st);
        let n = t.len();
        if n != 8 {
            return Err(CastError::length(8, n));
        }
        let ghost elems = s0.arrays[raw->Ary_0 as int];
        let el0 = match t.next_element::<A>(st) {
            Some(Ok(x)) => x,
            Some(Err(err)) => {
                return Err(err);
            },
            None => {
                proof {
                    assert(false);
                }
                return Err(CastError::length(8, 0));
            },
        };
        let ghost s1 = st@;
        let el1 = match t.next_element::<B>(st) {
            Some(Ok(x)) => x,
            Some(Err(err)) => {
                proof {
                    lemma_tuple_elem_bridge::<B>(s0, s1, elems, raw, 1);
                }
                return Err(err);
            },
            None => {
                proof {
                    assert(false);
                }
                return Err(CastError::length(8, 0));
            },
        };
        let ghost s2 = st@;
        let el2 = match t.next_element::<C>(st) {
            Some(Ok(x)) => x,
            Some(Err(err)) => {
                proof {
                    crate::state::lemma_preserved_trans(s0, s1, s2);
                    lemma_tuple_elem_bridge::<B>(s0, s1, elems, raw, 1);
                    lemma_tuple_elem_bridge::<C>(s0, s2, elems, raw, 2);
                }
                return Err(err);
            },
            None => {
                proof {
                    assert(false);
                }
                return Err(CastError::length(8, 0));
            },
        };
        let ghost s3 = st@;
        let el3 = match t.next_element::<D>(st) {
            Some(Ok(x)) => x,
            Some(Err(err)) => {
                proof {
                    crate::state::lemma_preserved_trans(s0, s1, s2);
                    crate::state::lemma_preserved_trans(s0, s2, s3);
                    lemma_tuple_elem_bridge::<B>(s0, s1, elems, raw, 1);
                    lemma_tuple_elem_bridge::<C>(s0, s2, elems, raw, 2);
                    lemma_tuple_elem_bridge::<D>(s0, s3, elems, raw, 3);
                }
                return Err(err);
            },
            None => {
                proof {
                    assert(false);
                }
                return Err(CastError::length(8, 0));
            },
        };
        let ghost s4 = st@;
        let el4 = match t.next_element::<E>(st) {
            Some(Ok(x)) => x,
            Some(Err(err)) => {
                proof {
                    crate::state::lemma_preserved_trans(s0, s1, s2);
                    crate::state::lemma_preserved_trans(s0, s2, s3);
                    crate::state::lemma_preserved_trans(s0, s3, s4);
                    lemma_tuple_elem_bridge::<B>(s0, s1, elems, raw, 1);
                    lemma_tuple_elem_bridge::<C>(s0, s2, elems, raw, 2);
                    lemma_tuple_elem_bridge::<D>(s0, s3, elems, raw, 3);
                    lemma_tuple_elem_bridge::<E>(s0, s4, elems, raw, 4);
                }
                return Err(err);
            },
            None => {
                proof {
                    assert(false);
                }
                return Err(CastError::length(8, 0));
            },
        };
        let ghost s5 = st@;
        let el5 = match t.next_element::<F>(st) {
            Some(Ok(x)) => x,
            Some(Err(err)) => {
                proof {
                    crate::state::lemma_preserved_trans(s0, s1, s2);
                    crate::state::lemma_preserved_trans(s0, s2, s3);
                    crate::state::lemma_preserved_trans(s0, s3, s4);
                    crate::state::lemma_preserved_trans(s0, s4, s5);
                    lemma_tuple_elem_bridge::<B>(s0, s1, elems, raw, 1);
                    lemma_tuple_elem_bridge::<C>(s0, s2, elems, raw, 2);
                    lemma_tuple_elem_bridge::<D>(s0, s3, elems, raw, 3);
                    lemma_tuple_elem_bridge::<E>(s0, s4, elems, raw, 4);
                    lemma_tuple_elem_bridge::<F>(s0, s5, elems, raw, 5);
                }
                return Err(err);
            },
            None => {
                proof {
                    assert(false);
                }
                return Err(CastError::length(8, 0));
            },
        };
        let ghost s6 = st@;
        let el6 = match t.next_element::<G>(st) {
            Some(Ok(x)) => x,
            Some(Err(err)) => {
                proof {
                    crate::state::lemma_preserved_trans(s0, s1, s2);
                    crate::state::lemma_preserved_trans(s0, s2, s3);
                    crate::state::lemma_preserved_trans(s0, s3, s4);
                    crate::state::lemma_preserved_trans(s0, s4, s5);
                    crate::state::lemma_preserved_trans(s0, s5, s6);
                    lemma_tuple_elem_bridge::<B>(s0, s1, elems, raw, 1);
                    lemma_tuple_elem_bridge::<C>(s0, s2, elems, raw, 2);
                    lemma_tuple_elem_bridge::<D>(s0, s3, elems, raw, 3);
                    lemma_tuple_elem_bridge::<E>(s0, s4, elems, raw, 4);
                    lemma_tuple_elem_bridge::<F>(s0, s5, elems, raw, 5);
                    lemma_tuple_elem_bridge::<G>(s0, s6, elems, raw, 6);
                }
                return Err(err);
            },
            None => {
                proof {
                    assert(false);
                }
                return Err(CastError::length(8, 0));
            },
        };
        let ghost s7 = st@;
        let el7 = match t.next_element::<H>(st) {
            Some(Ok(x)) => x,
            Some(Err(err)) => {
                proof {
                    crate::state::lemma_preserved_trans(s0, s1, s2);
                    crate::state::lemma_preserved_trans(s0, s2, s3);
                    crate::state::lemma_preserved_trans(s0, s3, s4);
                    crate::state::lemma_preserved_trans(s0, s4, s5);
                    crate::state::lemma_preserved_trans(s0, s5, s6);
                    crate::state::lemma_preserved_trans(s0, s6, s7);
                    lemma_tuple_elem_bridge::<B>(s0, s1, elems, raw, 1);
                    lemma_tuple_elem_bridge::<C>(s0, s2, elems, raw, 2);
                    lemma_tuple_elem_bridge::<D>(s0, s3, elems, raw, 3);
                    lemma_tuple_elem_bridge::<E>(s0, s4, elems, raw, 4);
                    lemma_tuple_elem_bridge::<F>(s0, s5, elems, raw, 5);
                    lemma_tuple_elem_bridge::<G>(s0, s6, elems, raw, 6);
                    lemma_tuple_elem_bridge::<H>(s0, s7, elems, raw, 7);
                }
                return Err(err);
            },
            None => {
                proof {
                    assert(false);
                }
                return Err(CastError::length(8, 0));
            },
        };
        proof {
            crate::state::lemma_preserved_trans(s0, s1, s2);
            crate::state::lemma_preserved_trans(s0, s2, s3);
            crate::state::lemma_preserved_trans(s0, s3, s4);
            crate::state::lemma_preserved_trans(s0, s4, s5);
            crate::state::lemma_preserved_trans(s0, s5, s6);
            crate::state::lemma_preserved_trans(s0, s6, s7);
            lemma_tuple_elem_bridge::<B>(s0, s1, elems, raw, 1);
            lemma_tuple_elem_bridge::<C>(s0, s2, elems, raw, 2);
            lemma_tuple_elem_bridge::<D>(s0, s3, elems, raw, 3);
            lemma_tuple_elem_bridge::<E>(s0, s4, elems, raw, 4);
            lemma_tuple_elem_bridge::<F>(s0, s5, elems, raw, 5);
            lemma_tuple_elem_bridge::<G>(s0, s6, elems, raw, 6);
            lemma_tuple_elem_bridge::<H>(s0, s7, elems, raw, 7);
        }
        Ok((el0, el1, el2, el3, el4, el5, el6, el7))
    }
}

impl<A: FromValue, B: FromValue, C: FromValue, D: FromValue, E: FromValue, F: FromValue, G: FromValue, H: FromValue, I: FromValue> FromValue for (A, B, C, D, E, F, G, H, I) {
    open spec fn de_spec(s: StateM, v: RawValue) -> Result<Datum, ErrModel> {
        match v {
            RawValue::Ary(i) => if i < s.arrays.len() {
                let elems = s.arrays[i as int];
                if elems.len() != 9 {
                    Err(ErrModel::Length(9, elems.len() as int))
                } else {
                    match A::de_spec(s, elems[0]) {
                        Err(e) => Err(e),
                        Ok(d0) => match B::de_spec(s, elems[1]) {
                        Err(e) => Err(e),
                        Ok(d1) => match C::de_spec(s, elems[2]) {
                        Err(e) => Err(e),
                        Ok(d2) => match D::de_spec(s, elems[3]) {
                        Err(e) => Err(e),
                        Ok(d3) => match E::de_spec(s, elems[4]) {
                        Err(e) => Err(e),
                        Ok(d4) => match F::de_spec(s, elems[5]) {
                        Err(e) => Err(e),
                        Ok(d5) => match G::de_spec(s, elems[6]) {
                        Err(e) => Err(e),
                        Ok(d6) => match H::de_spec(s, elems[7]) {
                        Err(e) => Err(e),
                        Ok(d7) => match I::de_spec(s, elems[8]) {
                        Err(e) => Err(e),
                        Ok(d8) => Ok(Datum::Ary(seq![d0, d1, d2, d3, d4, d5, d6, d7, d8])),
                    },
                    },
                    },
                    },
                    },
                    },
                    },
                    },
                    }
                }
            } else {
                Err(ErrModel::Length(9, 0))
            },
            _ => Err(ErrModel::Length(9, 0)),
        }
    }

    proof fn lemma_de_spec_preserved(s1: StateM, s2: StateM, v: RawValue) {
        if v is Ary && (v->Ary_0 as int) < s1.arrays.len() {
            let i = v->Ary_0 as int;
            let elems = s1.arrays[i];
            assert(s2.arrays[i] == elems);
            if elems.len() == 9 {
                assert(raw_valid(s1, elems[0]));
                assert(raw_valid(s1, elems[1]));
                assert(raw_valid(s1, elems[2]));
                assert(raw_valid(s1, elems[3]));
                assert(raw_valid(s1, elems[4]));
                assert(raw_valid(s1, elems[5]));
                assert(raw_valid(s1, elems[6]));
                assert(raw_valid(s1, elems[7]));
                assert(raw_valid(s1, elems[8]));
                A::lemma_de_spec_preserved(s1, s2, elems[0]);
                B::lemma_de_spec_preserved(s1, s2, elems[1]);
                C::lemma_de_spec_preserved(s1, s2, elems[2]);
                D::lemma_de_spec_preserved(s1, s2, elems[3]);
                E::lemma_de_spec_preserved(s1, s2, elems[4]);
                F::lemma_de_spec_preserved(s1, s2, elems[5]);
                G::lemma_de_spec_preserved(s1, s2, elems[6]);
                H::lemma_de_spec_preserved(s1, s2, elems[7]);
                I::lemma_de_spec_preserved(s1, s2, elems[8]);
            }
        }
    }

    fn from_value(de: Deserializer, st: &mut State) -> (r: Result<Self, CastError>) {
        let ghost s0 = old(st)@;
        let ghost raw = de@;
        let mut t = de.deserialize_tuple(st);
        let n = t.len();
        if n != 9 {
            return Err(CastError::length(9, n));
        }
        let ghost elems = s0.arrays[raw->Ary_0 as int];
        let el0 = match t.next_element::<A>(st) {
            Some(Ok(x)) => x,
            Some(Err(err)) => {
                return Err(err);
            },
            None => {
                proof {
                    assert(false);
                }
                return Err(CastError::length(9, 0));
            },
        };
        let ghost s1 = st@;
        let el1 = match t.next_element::<B>(st) {
            Some(Ok(x)) => x,
            Some(Err(err)) => {
                proof {
                    lemma_tuple_elem_bridge::<B>(s0, s1, elems, raw, 1);
                }
                return Err(err);
            },
            None => {
                proof {
                    assert(false);
                }
                return Err(CastError::length(9, 0));
            },
        };
        let ghost s2 = st@;
        let el2 = match t.next_element::<C>(st) {
            Some(Ok(x)) => x,
            Some(Err(err)) => {
                proof {
                    crate::state::lemma_preserved_trans(s0, s1, s2);
                    lemma_tuple_elem_bridge::<B>(s0, s1, elems, raw, 1);
                    lemma_tuple_elem_bridge::<C>(s0, s2, elems, raw, 2);
                }
                return Err(err);
            },
            None => {
                proof {
                    assert(false);
                }
                return Err(CastError::length(9, 0));
            },
        };
        let ghost s3 = st@;
        let el3 = match t.next_element::<D>(st) {
            Some(Ok(x)) => x,
            Some(Err(err)) => {
                proof {
                    crate::state::lemma_preserved_trans(s0, s1, s2);
                    crate::state::lemma_preserved_trans(s0, s2, s3);
                    lemma_tuple_elem_bridge::<B>(s0, s1, elems, raw, 1);
                    lemma_tuple_elem_bridge::<C>(s0, s2, elems, raw, 2);
                    lemma_tuple_elem_bridge::<D>(s0, s3, elems, raw, 3);
                }
                return Err(err);
            },
            None => {
                proof {
                    assert(false);
                }
                return Err(CastError::length(9, 0));
            },
        };
        let ghost s4 = st@;
        let el4 = match t.next_element::<E>(st) {
            Some(Ok(x)) => x,
            Some(Err(err)) => {
                proof {
                    crate::state::lemma_preserved_trans(s0, s1, s2);
                    crate::state::lemma_preserved_trans(s0, s2, s3);
                    crate::state::lemma_preserved_trans(s0, s3, s4);
                    lemma_tuple_elem_bridge::<B>(s0, s1, elems, raw, 1);
                    lemma_tuple_elem_bridge::<C>(s0, s2, elems, raw, 2);
                    lemma_tuple_elem_bridge::<D>(s0, s3, elems, raw, 3);
                    lemma_tuple_elem_bridge::<E>(s0, s4, elems, raw, 4);
                }
                return Err(err);
            },
            None => {
                proof {
                    assert(false);
                }
                return Err(CastError::length(9, 0));
            },
        };
        let ghost s5 = st@;
        let el5 = match t.next_element::<F>(st) {
            Some(Ok(x)) => x,
            Some(Err(err)) => {
                proof {
                    crate::state::lemma_preserved_trans(s0, s1, s2);
                    crate::state::lemma_preserved_trans(s0, s2, s3);
                    crate::state::lemma_preserved_trans(s0, s3, s4);
                    crate::state::lemma_preserved_trans(s0, s4, s5);
                    lemma_tuple_elem_bridge::<B>(s0, s1, elems, raw, 1);
                    lemma_tuple_elem_bridge::<C>(s0, s2, elems, raw, 2);
                    lemma_tuple_elem_bridge::<D>(s0, s3, elems, raw, 3);
                    lemma_tuple_elem_bridge::<E>(s0, s4, elems, raw, 4);
                    lemma_tuple_elem_bridge::<F>(s0, s5, elems, raw, 5);
                }
                return Err(err);
            },
            None => {
                proof {
                    assert(false);
                }
                return Err(CastError::length(9, 0));
            },
        };
        let ghost s6 = st@;
        let el6 = match t.next_element::<G>(st) {
            Some(Ok(x)) => x,
            Some(Err(err)) => {
                proof {
                    crate::state::lemma_preserved_trans(s0, s1, s2);
                    crate::state::lemma_preserved_trans(s0, s2, s3);
                    crate::state::lemma_preserved_trans(s0, s3, s4);
                    crate::state::lemma_preserved_trans(s0, s4, s5);
                    crate::state::lemma_preserved_trans(s0, s5, s6);
                    lemma_tuple_elem_bridge::<B>(s0, s1, elems, raw, 1);
                    lemma_tuple_elem_bridge::<C>(s0, s2, elems, raw, 2);
                    lemma_tuple_elem_bridge::<D>(s0, s3, elems, raw, 3);
                    lemma_tuple_elem_bridge::<E>(s0, s4, elems, raw, 4);
                    lemma_tuple_elem_bridge::<F>(s0, s5, elems, raw, 5);
                    lemma_tuple_elem_bridge::<G>(s0, s6, elems, raw, 6);
                }
                return Err(err);
            },
            None => {
                proof {
                    assert(false);
                }
                return Err(CastError::length(9, 0));
            },
        };
        let ghost s7 = st@;
        let el7 = match t.next_element::<H>(st) {
            Some(Ok(x)) => x,
            Some(Err(err)) => {
                proof {
                    crate::state::lemma_preserved_trans(s0, s1, s2);
                    crate::state::lemma_preserved_trans(s0, s2, s3);
                    crate::state::lemma_preserved_trans(s0, s3, s4);
                    crate::state::lemma_preserved_trans(s0, s4, s5);
                    crate::state::lemma_preserved_trans(s0, s5, s6);
                    crate::state::lemma_preserved_trans(s0, s6, s7);
                    lemma_tuple_elem_bridge::<B>(s0, s1, elems, raw, 1);
                    lemma_tuple_elem_bridge::<C>(s0, s2, elems, raw, 2);
                    lemma_tuple_elem_bridge::<D>(s0, s3, elems, raw, 3);
                    lemma_tuple_elem_bridge::<E>(s0, s4, elems, raw, 4);
                    lemma_tuple_elem_bridge::<F>(s0, s5, elems, raw, 5);
                    lemma_tuple_elem_bridge::<G>(s0, s6, elems, raw, 6);
                    lemma_tuple_elem_bridge::<H>(s0, s7, elems, raw, 7);
                }
                return Err(err);
            },
            None => {
                proof {
                    assert(false);
                }
                return Err(CastError::length(9, 0));
            },
        };
        let ghost s8 = st@;
        let el8 = match t.next_element::<I>(st) {
            Some(Ok(x)) => x,
            Some(Err(err)) => {
                proof {
                    crate::state::lemma_preserved_trans(s0, s1, s2);
                    crate::state::lemma_preserved_trans(s0, s2, s3);
                    crate::state::lemma_preserved_trans(s0, s3, s4);
                    crate::state::lemma_preserved_trans(s0, s4, s5);
                    crate::state::lemma_preserved_trans(s0, s5, s6);
                    crate::state::lemma_preserved_trans(s0, s6, s7);
                    crate::state::lemma_preserved_trans(s0, s7, s8);
                    lemma_tuple_elem_bridge::<B>(s0, s1, elems, raw, 1);
                    lemma_tuple_elem_bridge::<C>(s0, s2, elems, raw, 2);
                    lemma_tuple_elem_bridge::<D>(s0, s3, elems, raw, 3);
                    lemma_tuple_elem_bridge::<E>(s0, s4, elems, raw, 4);
                    lemma_tuple_elem_bridge::<F>(s0, s5, elems, raw, 5);
                    lemma_tuple_elem_bridge::<G>(s0, s6, elems, raw, 6);
                    lemma_tuple_elem_bridge::<H>(s0, s7, elems, raw, 7);
                    lemma_tuple_elem_bridge::<I>(s0, s8, elems, raw, 8);
                }
                return Err(err);
            },
            None => {
                proof {
                    assert(false);
                }
                return Err(CastError::length(9, 0));
            },
        };
        proof {
            crate::state::lemma_preserved_trans(s0, s1, s2);
            crate::state::lemma_preserved_trans(s0, s2, s3);
            crate::state::lemma_preserved_trans(s0, s3, s4);
            crate::state::lemma_preserved_trans(s0, s4, s5);
            crate::state::lemma_preserved_trans(s0, s5, s6);
            crate::state::lemma_preserved_trans(s0, s6, s7);
            crate::state::lemma_preserved_trans(s0, s7, s8);
            lemma_tuple_elem_bridge::<B>(s0, s1, elems, raw, 1);
            lemma_tuple_elem_bridge::<C>(s0, s2, elems, raw, 2);
            lemma_tuple_elem_bridge::<D>(s0, s3, elems, raw, 3);
            lemma_tuple_elem_bridge::<E>(s0, s4, elems, raw, 4);
            lemma_tuple_elem_bridge::<F>(s0, s5, elems, raw, 5);
            lemma_tuple_elem_bridge::<G>(s0, s6, elems, raw, 6);
            lemma_tuple_elem_bridge::<H>(s0, s7, elems, raw, 7);
            lemma_tuple_elem_bridge::<I>(s0, s8, elems, raw, 8);
        }
        Ok((el0, el1, el2, el3, el4, el5, el6, el7, el8))
    }
}

impl<A: FromValue, B: FromValue, C: FromValue, D: FromValue, E: FromValue, F: FromValue, G: FromValue, H: FromValue, I: FromValue, J: FromValue> FromValue for (A, B, C, D, E, F, G, H, I, J) {
    open spec fn de_spec(s: StateM, v: RawValue) -> Result<Datum, ErrModel> {
        match v {
            RawValue::Ary(i) => if i < s.arrays.len() {
                let elems = s.arrays[i as int];
                if elems.len() != 10 {
                    Err(ErrModel::Length(10, elems.len() as int))
                } else {
                    match A::de_spec(s, elems[0]) {
                        Err(e) => Err(e),
                        Ok(d0) => match B::de_spec(s, elems[1]) {
                        Err(e) => Err(e),
                        Ok(d1) => match C::de_spec(s, elems[2]) {
                        Err(e) => Err(e),
                        Ok(d2) => match D::de_spec(s, elems[3]) {
                        Err(e) => Err(e),
                        Ok(d3) => match E::de_spec(s, elems[4]) {
                        Err(e) => Err(e),
                        Ok(d4) => match F::de_spec(s, elems[5]) {
                        Err(e) => Err(e),
                        Ok(d5) => match G::de_spec(s, elems[6]) {
                        Err(e) => Err(e),
                        Ok(d6) => match H::de_spec(s, elems[7]) {
                        Err(e) => Err(e),
                        Ok(d7) => match I::de_spec(s, elems[8]) {
                        Err(e) => Err(e),
                        Ok(d8) => match J::de_spec(s, elems[9]) {
                        Err(e) => Err(e),
                        Ok(d9) => Ok(Datum::Ary(seq![d0, d1, d2, d3, d4, d5, d6, d7, d8, d9])),
                    },
                    },
                    },
                    },
                    },
                    },
                    },
                    },
                    },
                    }
                }
            } else {
                Err(ErrModel::Length(10, 0))
            },
            _ => Err(ErrModel::Length(10, 0)),
        }
    }

    proof fn lemma_de_spec_preserved(s1: StateM, s2: StateM, v: RawValue) {
        if v is Ary && (v->Ary_0 as int) < s1.arrays.len() {
            let i = v->Ary_0 as int;
            let elems = s1.arrays[i];
            assert(s2.arrays[i] == elems);
            if elems.len() == 10 {
                assert(raw_valid(s1, elems[0]));
                assert(raw_valid(s1, elems[1]));
                assert(raw_valid(s1, elems[2]));
                assert(raw_valid(s1, elems[3]));
                assert(raw_valid(s1, elems[4]));
                assert(raw_valid(s1, elems[5]));
                assert(raw_valid(s1, elems[6]));
                assert(raw_valid(s1, elems[7]));
                assert(raw_valid(s1, elems[8]));
                assert(raw_valid(s1, elems[9]));
                A::lemma_de_spec_preserved(s1, s2, elems[0]);
                B::lemma_de_spec_preserved(s1, s2, elems[1]);
                C::lemma_de_spec_preserved(s1, s2, elems[2]);
                D::lemma_de_spec_preserved(s1, s2, elems[3]);
                E::lemma_de_spec_preserved(s1, s2, elems[4]);
                F::lemma_de_spec_preserved(s1, s2, elems[5]);
                G::lemma_de_spec_preserved(s1, s2, elems[6]);
                H::lemma_de_spec_preserved(s1, s2, elems[7]);
                I::lemma_de_spec_preserved(s1, s2, elems[8]);
                J::lemma_de_spec_preserved(s1, s2, elems[9]);
            }
        }
    }

    fn from_value(de: Deserializer, st: &mut State) -> (r: Result<Self, CastError>) {
        let ghost s0 = old(st)@;
        let ghost raw = de@;
        let mut t = de.deserialize_tuple(st);
        let n = t.len();
        if n != 10 {
            return Err(CastError::length(10, n));
        }
        let ghost elems = s0.arrays[raw->Ary_0 as int];
        let el0 = match t.next_element::<A>(st) {
            Some(Ok(x)) => x,
            Some(Err(err)) => {
                return Err(err);
            },
            None => {
                proof {
                    assert(false);
                }
                return Err(CastError::length(10, 0));
            },
        };
        let ghost s1 = st@;
        let el1 = match t.next_element::<B>(st) {
            Some(Ok(x)) => x,
            Some(Err(err)) => {
                proof {
                    lemma_tuple_elem_bridge::<B>(s0, s1, elems, raw, 1);
                }
                return Err(err);
            },
            None => {
                proof {
                    assert(false);
                }
                return Err(CastError::length(10, 0));
            },
        };
        let ghost s2 = st@;
        let el2 = match t.next_element::<C>(st) {
            Some(Ok(x)) => x,
            Some(Err(err)) => {
                proof {
                    crate::state::lemma_preserved_trans(s0, s1, s2);
                    lemma_tuple_elem_bridge::<B>(s0, s1, elems, raw, 1);
                    lemma_tuple_elem_bridge::<C>(s0, s2, elems, raw, 2);
                }
                return Err(err);
            },
            None => {
                proof {
                    assert(false);
                }
                return Err(CastError::length(10, 0));
            },
        };
        let ghost s3 = st@;
        let el3 = match t.next_element::<D>(st) {
            Some(Ok(x)) => x,
            Some(Err(err)) => {
                proof {
                    crate::state::lemma_preserved_trans(s0, s1, s2);
                    crate::state::lemma_preserved_trans(s0, s2, s3);
                    lemma_tuple_elem_bridge::<B>(s0, s1, elems, raw, 1);
                    lemma_tuple_elem_bridge::<C>(s0, s2, elems, raw, 2);
                    lemma_tuple_elem_bridge::<D>(s0, s3, elems, raw, 3);
                }
                return Err(err);
            },
            None => {
                proof {
                    assert(false);
                }
                return Err(CastError::length(10, 0));
            },
        };
        let ghost s4 = st@;
        let el4 = match t.next_element::<E>(st) {
            Some(Ok(x)) => x,
            Some(Err(err)) => {
                proof {
                    crate::state::lemma_preserved_trans(s0, s1, s2);
                    crate::state::lemma_preserved_trans(s0, s2, s3);
                    crate::state::lemma_preserved_trans(s0, s3, s4);
                    lemma_tuple_elem_bridge::<B>(s0, s1, elems, raw, 1);
                    lemma_tuple_elem_bridge::<C>(s0, s2, elems, raw, 2);
                    lemma_tuple_elem_bridge::<D>(s0, s3, elems, raw, 3);
                    lemma_tuple_elem_bridge::<E>(s0, s4, elems, raw, 4);
                }
                return Err(err);
            },
            None => {
                proof {
                    assert(false);
                }
                return Err(CastError::length(10, 0));
            },
        };
        let ghost s5 = st@;
        let el5 = match t.next_element::<F>(st) {
            Some(Ok(x)) => x,
            Some(Err(err)) => {
                proof {
                    crate::state::lemma_preserved_trans(s0, s1, s2);
                    crate::state::lemma_preserved_trans(s0, s2, s3);
                    crate::state::lemma_preserved_trans(s0, s3, s4);
                    crate::state::lemma_preserved_trans(s0, s4, s5);
                    lemma_tuple_elem_bridge::<B>(s0, s1, elems, raw, 1);
                    lemma_tuple_elem_bridge::<C>(s0, s2, elems, raw, 2);
                    lemma_tuple_elem_bridge::<D>(s0, s3, elems, raw, 3);
                    lemma_tuple_elem_bridge::<E>(s0, s4, elems, raw, 4);
                    lemma_tuple_elem_bridge::<F>(s0, s5, elems, raw, 5);
                }
                return Err(err);
            },
            None => {
                proof {
                    assert(false);
                }
                return Err(CastError::length(10, 0));
            },
        };
        let ghost s6 = st@;
        let el6 = match t.next_element::<G>(st) {
            Some(Ok(x)) => x,
            Some(Err(err)) => {
                proof {
                    crate::state::lemma_preserved_trans(s0, s1, s2);
                    crate::state::lemma_preserved_trans(s0, s2, s3);
                    crate::state::lemma_preserved_trans(s0, s3, s4);
                    crate::state::lemma_preserved_trans(s0, s4, s5);
                    crate::state::lemma_preserved_trans(s0, s5, s6);
                    lemma_tuple_elem_bridge::<B>(s0, s1, elems, raw, 1);
                    lemma_tuple_elem_bridge::<C>(s0, s2, elems, raw, 2);
                    lemma_tuple_elem_bridge::<D>(s0, s3, elems, raw, 3);
                    lemma_tuple_elem_bridge::<E>(s0, s4, elems, raw, 4);
                    lemma_tuple_elem_bridge::<F>(s0, s5, elems, raw, 5);
                    lemma_tuple_elem_bridge::<G>(s0, s6, elems, raw, 6);
                }
                return Err(err);
            },
            None => {
                proof {
                    assert(false);
                }
                return Err(CastError::length(10, 0));
            },
        };
        let ghost s7 = st@;
        let el7 = match t.next_element::<H>(st) {
            Some(Ok(x)) => x,
            Some(Err(err)) => {
                proof {
                    crate::state::lemma_preserved_trans(s0, s1, s2);
                    crate::state::lemma_preserved_trans(s0, s2, s3);
                    crate::state::lemma_preserved_trans(s0, s3, s4);
                    crate::state::lemma_preserved_trans(s0, s4, s5);
                    crate::state::lemma_preserved_trans(s0, s5, s6);
                    crate::state::lemma_preserved_trans(s0, s6, s7);
                    lemma_tuple_elem_bridge::<B>(s0, s1, elems, raw, 1);
                    lemma_tuple_elem_bridge::<C>(s0, s2, elems, raw, 2);
                    lemma_tuple_elem_bridge::<D>(s0, s3, elems, raw, 3);
                    lemma_tuple_elem_bridge::<E>(s0, s4, elems, raw, 4);
                    lemma_tuple_elem_bridge::<F>(s0, s5, elems, raw, 5);
                    lemma_tuple_elem_bridge::<G>(s0, s6, elems, raw, 6);
                    lemma_tuple_elem_bridge::<H>(s0, s7, elems, raw, 7);
                }
                return Err(err);
            },
            None => {
                proof {
                    assert(false);
                }
                return Err(CastError::length(10, 0));
            },
        };
        let ghost s8 = st@;
        let el8 = match t.next_element::<I>(st) {
            Some(Ok(x)) => x,
            Some(Err(err)) => {
                proof {
                    crate::state::lemma_preserved_trans(s0, s1, s2);
                    crate::state::lemma_preserved_trans(s0, s2, s3);
                    crate::state::lemma_preserved_trans(s0, s3, s4);
                    crate::state::lemma_preserved_trans(s0, s4, s5);
                    crate::state::lemma_preserved_trans(s0, s5, s6);
                    crate::state::lemma_preserved_trans(s0, s6, s7);
                    crate::state::lemma_preserved_trans(s0, s7, s8);
                    lemma_tuple_elem_bridge::<B>(s0, s1, elems, raw, 1);
                    lemma_tuple_elem_bridge::<C>(s0, s2, elems, raw, 2);
                    lemma_tuple_elem_bridge::<D>(s0, s3, elems, raw, 3);
                    lemma_tuple_elem_bridge::<E>(s0, s4, elems, raw, 4);
                    lemma_tuple_elem_bridge::<F>(s0, s5, elems, raw, 5);
                    lemma_tuple_elem_bridge::<G>(s0, s6, elems, raw, 6);
                    lemma_tuple_elem_bridge::<H>(s0, s7, elems, raw, 7);
                    lemma_tuple_elem_bridge::<I>(s0, s8, elems, raw, 8);
                }
                return Err(err);
            },
            None => {
                proof {
                    assert(false);
                }
                return Err(CastError::length(10, 0));
            },
        };
        let ghost s9 = st@;
        let el9 = match t.next_element::<J>(st) {
            Some(Ok(x)) => x,
            Some(Err(err)) => {
                proof {
                    crate::state::lemma_preserved_trans(s0, s1, s2);
                    crate::state::lemma_preserved_trans(s0, s2, s3);
                    crate::state::lemma_preserved_trans(s0, s3, s4);
                    crate::state::lemma_preserved_trans(s0, s4, s5);
                    crate::state::lemma_preserved_trans(s0, s5, s6);
                    crate::state::lemma_preserved_trans(s0, s6, s7);
                    crate::state::lemma_preserved_trans(s0, s7, s8);
                    crate::state::lemma_preserved_trans(s0, s8, s9);
                    lemma_tuple_elem_bridge::<B>(s0, s1, elems, raw, 1);
                    lemma_tuple_elem_bridge::<C>(s0, s2, elems, raw, 2);
                    lemma_tuple_elem_bridge::<D>(s0, s3, elems, raw, 3);
                    lemma_tuple_elem_bridge::<E>(s0, s4, elems, raw, 4);
                    lemma_tuple_elem_bridge::<F>(s0, s5, elems, raw, 5);
                    lemma_tuple_elem_bridge::<G>(s0, s6, elems, raw, 6);
                    lemma_tuple_elem_bridge::<H>(s0, s7, elems, raw, 7);
                    lemma_tuple_elem_bridge::<I>(s0, s8, elems, raw, 8);
                    lemma_tuple_elem_bridge::<J>(s0, s9, elems, raw, 9);
                }
                return Err(err);
            },
            None => {
                proof {
                    assert(false);
                }
                return Err(CastError::length(10, 0));
            },
        };
        proof {
            crate::state::lemma_preserved_trans(s0, s1, s2);
            crate::state::lemma_preserved_trans(s0, s2, s3);
            crate::state::lemma_preserved_trans(s0, s3, s4);
            crate::state::lemma_preserved_trans(s0, s4, s5);
            crate::state::lemma_preserved_trans(s0, s5, s6);
            crate::state::lemma_preserved_trans(s0, s6, s7);
            crate::state::lemma_preserved_trans(s0, s7, s8);
            crate::state::lemma_preserved_trans(s0, s8, s9);
            lemma_tuple_elem_bridge::<B>(s0, s1, elems, raw, 1);
            lemma_tuple_elem_bridge::<C>(s0, s2, elems, raw, 2);
            lemma_tuple_elem_bridge::<D>(s0, s3, elems, raw, 3);
            lemma_tuple_elem_bridge::<E>(s0, s4, elems, raw, 4);
            lemma_tuple_elem_bridge::<F>(s0, s5, elems, raw, 5);
            lemma_tuple_elem_bridge::<G>(s0, s6, elems, raw, 6);
            lemma_tuple_elem_bridge::<H>(s0, s7, elems, raw, 7);
            lemma_tuple_elem_bridge::<I>(s0, s8, elems, raw, 8);
            lemma_tuple_elem_bridge::<J>(s0, s9, elems, raw, 9);
        }
        Ok((el0, el1, el2, el3, el4, el5, el6, el7, el8, el9))
    }
}

impl<A: FromValue, B: FromValue, C: FromValue, D: FromValue, E: FromValue, F: FromValue, G: FromValue, H: FromValue, I: FromValue, J: FromValue, K: FromValue> FromValue for (A, B, C, D, E, F, G, H, I, J, K) {
    open spec fn de_spec(s: StateM, v: RawValue) -> Result<Datum, ErrModel> {
        match v {
            RawValue::Ary(i) => if i < s.arrays.len() {
                let elems = s.arrays[i as int];
                if elems.len() != 11 {
                    Err(ErrModel::Length(11, elems.len() as int))
                } else {
                    match A::de_spec(s, elems[0]) {
                        Err(e) => Err(e),
                        Ok(d0) => match B::de_spec(s, elems[1]) {
                        Err(e) => Err(e),
                        Ok(d1) => match C::de_spec(s, elems[2]) {
                        Err(e) => Err(e),
                        Ok(d2) => match D::de_spec(s, elems[3]) {
                        Err(e) => Err(e),
                        Ok(d3) => match E::de_spec(s, elems[4]) {
                        Err(e) => Err(e),
                        Ok(d4) => match F::de_spec(s, elems[5]) {
                        Err(e) => Err(e),
                        Ok(d5) => match G::de_spec(s, elems[6]) {
                        Err(e) => Err(e),
                        Ok(d6) => match H::de_spec(s, elems[7]) {
                        Err(e) => Err(e),
                        Ok(d7) => match I::de_spec(s, elems[8]) {
                        Err(e) => Err(e),
                        Ok(d8) => match J::de_spec(s, elems[9]) {
                        Err(e) => Err(e),
                        Ok(d9) => match K::de_spec(s, elems[10]) {
                        Err(e) => Err(e),
                        Ok(d10) => Ok(Datum::Ary(seq![d0, d1, d2, d3, d4, d5, d6, d7, d8, d9, d10])),
                    },
                    },
                    },
                    },
                    },
                    },
                    },
                    },
                    },
                    },
                    }
                }
            } else {
                Err(ErrModel::Length(11, 0))
            },
            _ => Err(ErrModel::Length(11, 0)),
        }
    }

    proof fn lemma_de_spec_preserved(s1: StateM, s2: StateM, v: RawValue) {
        if v is Ary && (v->Ary_0 as int) < s1.arrays.len() {
            let i = v->Ary_0 as int;
            let elems = s1.arrays[i];
            assert(s2.arrays[i] == elems);
            if elems.len() == 11 {
                assert(raw_valid(s1, elems[0]));
                assert(raw_valid(s1, elems[1]));
                assert(raw_valid(s1, elems[2]));
                assert(raw_valid(s1, elems[3]));
                assert(raw_valid(s1, elems[4]));
                assert(raw_valid(s1, elems[5]));
                assert(raw_valid(s1, elems[6]));
                assert(raw_valid(s1, elems[7]));
                assert(raw_valid(s1, elems[8]));
                assert(raw_valid(s1, elems[9]));
                assert(raw_valid(s1, elems[10]));
                A::lemma_de_spec_preserved(s1, s2, elems[0]);
                B::lemma_de_spec_preserved(s1, s2, elems[1]);
                C::lemma_de_spec_preserved(s1, s2, elems[2]);
                D::lemma_de_spec_preserved(s1, s2, elems[3]);
                E::lemma_de_spec_preserved(s1, s2, elems[4]);
                F::lemma_de_spec_preserved(s1, s2, elems[5]);
                G::lemma_de_spec_preserved(s1, s2, elems[6]);
                H::lemma_de_spec_preserved(s1, s2, elems[7]);
                I::lemma_de_spec_preserved(s1, s2, elems[8]);
                J::lemma_de_spec_preserved(s1, s2, elems[9]);
                K::lemma_de_spec_preserved(s1, s2, elems[10]);
            }
        }
    }

    fn from_value(de: Deserializer, st: &mut State) -> (r: Result<Self, CastError>) {
        let ghost s0 = old(st)@;
        let ghost raw = de@;
        let mut t = de.deserialize_tuple(st);
        let n = t.len();
        if n != 11 {
            return Err(CastError::length(11, n));
        }
        let ghost elems = s0.arrays[raw->Ary_0 as int];
        let el0 = match t.next_element::<A>(st) {
            Some(Ok(x)) => x,
            Some(Err(err)) => {
                return Err(err);
            },
            None => {
                proof {
                    assert(false);
                }
                return Err(CastError::length(11, 0));
            },
        };
        let ghost s1 = st@;
        let el1 = match t.next_element::<B>(st) {
            Some(Ok(x)) => x,
            Some(Err(err)) => {
                proof {
                    lemma_tuple_elem_bridge::<B>(s0, s1, elems, raw, 1);
                }
                return Err(err);
            },
            None => {
                proof {
                    assert(false);
                }
                return Err(CastError::length(11, 0));
            },
        };
        let ghost s2 = st@;
        let el2 = match t.next_element::<C>(st) {
            Some(Ok(x)) => x,
            Some(Err(err)) => {
                proof {
                    crate::state::lemma_preserved_trans(s0, s1, s2);
                    lemma_tuple_elem_bridge::<B>(s0, s1, elems, raw, 1);
                    lemma_tuple_elem_bridge::<C>(s0, s2, elems, raw, 2);
                }
                return Err(err);
            },
            None => {
                proof {
                    assert(false);
                }
                return Err(CastError::length(11, 0));
            },
        };
        let ghost s3 = st@;
        let el3 = match t.next_element::<D>(st) {
            Some(Ok(x)) => x,
            Some(Err(err)) => {
                proof {
                    crate::state::lemma_preserved_trans(s0, s1, s2);
                    crate::state::lemma_preserved_trans(s0, s2, s3);
                    lemma_tuple_elem_bridge::<B>(s0, s1, elems, raw, 1);
                    lemma_tuple_elem_bridge::<C>(s0, s2, elems, raw, 2);
                    lemma_tuple_elem_bridge::<D>(s0, s3, elems, raw, 3);
                }
                return Err(err);
            },
            None => {
                proof {
                    assert(false);
                }
                return Err(CastError::length(11, 0));
            },
        };
        let ghost s4 = st@;
        let el4 = match t.next_element::<E>(st) {
            Some(Ok(x)) => x,
            Some(Err(err)) => {
                proof {
                    crate::state::lemma_preserved_trans(s0, s1, s2);
                    crate::state::lemma_preserved_trans(s0, s2, s3);
                    crate::state::lemma_preserved_trans(s0, s3, s4);
                    lemma_tuple_elem_bridge::<B>(s0, s1, elems, raw, 1);
                    lemma_tuple_elem_bridge::<C>(s0, s2, elems, raw, 2);
                    lemma_tuple_elem_bridge::<D>(s0, s3, elems, raw, 3);
                    lemma_tuple_elem_bridge::<E>(s0, s4, elems, raw, 4);
                }
                return Err(err);
            },
            None => {
                proof {
                    assert(false);
                }
                return Err(CastError::length(11, 0));
            },
        };
        let ghost s5 = st@;
        let el5 = match t.next_element::<F>(st) {
            Some(Ok(x)) => x,
            Some(Err(err)) => {
                proof {
                    crate::state::lemma_preserved_trans(s0, s1, s2);
                    crate::state::lemma_preserved_trans(s0, s2, s3);
                    crate::state::lemma_preserved_trans(s0, s3, s4);
                    crate::state::lemma_preserved_trans(s0, s4, s5);
                    lemma_tuple_elem_bridge::<B>(s0, s1, elems, raw, 1);
                    lemma_tuple_elem_bridge::<C>(s0, s2, elems, raw, 2);
                    lemma_tuple_elem_bridge::<D>(s0, s3, elems, raw, 3);
                    lemma_tuple_elem_bridge::<E>(s0, s4, elems, raw, 4);
                    lemma_tuple_elem_bridge::<F>(s0, s5, elems, raw, 5);
                }
                return Err(err);
            },
            None => {
                proof {
                    assert(false);
                }
                return Err(CastError::length(11, 0));
            },
        };
        let ghost s6 = st@;
        let el6 = match t.next_element::<G>(st) {
            Some(Ok(x)) => x,
            Some(Err(err)) => {
                proof {
                    crate::state::lemma_preserved_trans(s0, s1, s2);
                    crate::state::lemma_preserved_trans(s0, s2, s3);
                    crate::state::lemma_preserved_trans(s0, s3, s4);
                    crate::state::lemma_preserved_trans(s0, s4, s5);
                    crate::state::lemma_preserved_trans(s0, s5, s6);
                    lemma_tuple_elem_bridge::<B>(s0, s1, elems, raw, 1);
                    lemma_tuple_elem_bridge::<C>(s0, s2, elems, raw, 2);
                    lemma_tuple_elem_bridge::<D>(s0, s3, elems, raw, 3);
                    lemma_tuple_elem_bridge::<E>(s0, s4, elems, raw, 4);
                    lemma_tuple_elem_bridge::<F>(s0, s5, elems, raw, 5);
                    lemma_tuple_elem_bridge::<G>(s0, s6, elems, raw, 6);
                }
                return Err(err);
            },
            None => {
                proof {
                    assert(false);
                }
                return Err(CastError::length(11, 0));
            },
        };
        let ghost s7 = st@;
        let el7 = match t.next_element::<H>(st) {
            Some(Ok(x)) => x,
            Some(Err(err)) => {
                proof {
                    crate::state::lemma_preserved_trans(s0, s1, s2);
                    crate::state::lemma_preserved_trans(s0, s2, s3);
                    crate::state::lemma_preserved_trans(s0, s3, s4);
                    crate::state::lemma_preserved_trans(s0, s4, s5);
                    crate::state::lemma_preserved_trans(s0, s5, s6);
                    crate::state::lemma_preserved_trans(s0, s6, s7);
                    lemma_tuple_elem_bridge::<B>(s0, s1, elems, raw, 1);
                    lemma_tuple_elem_bridge::<C>(s0, s2, elems, raw, 2);
                    lemma_tuple_elem_bridge::<D>(s0, s3, elems, raw, 3);
                    lemma_tuple_elem_bridge::<E>(s0, s4, elems, raw, 4);
                    lemma_tuple_elem_bridge::<F>(s0, s5, elems, raw, 5);
                    lemma_tuple_elem_bridge::<G>(s0, s6, elems, raw, 6);
                    lemma_tuple_elem_bridge::<H>(s0, s7, elems, raw, 7);
                }
                return Err(err);
            },
            None => {
                proof {
                    assert(false);
                }
                return Err(CastError::length(11, 0));
            },
        };
        let ghost s8 = st@;
        let el8 = match t.next_element::<I>(st) {
            Some(Ok(x)) => x,
            Some(Err(err)) => {
                proof {
                    crate::state::lemma_preserved_trans(s0, s1, s2);
                    crate::state::lemma_preserved_trans(s0, s2, s3);
                    crate::state::lemma_preserved_trans(s0, s3, s4);
                    crate::state::lemma_preserved_trans(s0, s4, s5);
                    crate::state::lemma_preserved_trans(s0, s5, s6);
                    crate::state::lemma_preserved_trans(s0, s6, s7);
                    crate::state::lemma_preserved_trans(s0, s7, s8);
                    lemma_tuple_elem_bridge::<B>(s0, s1, elems, raw, 1);
                    lemma_tuple_elem_bridge::<C>(s0, s2, elems, raw, 2);
                    lemma_tuple_elem_bridge::<D>(s0, s3, elems, raw, 3);
                    lemma_tuple_elem_bridge::<E>(s0, s4, elems, raw, 4);
                    lemma_tuple_elem_bridge::<F>(s0, s5, elems, raw, 5);
                    lemma_tuple_elem_bridge::<G>(s0, s6, elems, raw, 6);
                    lemma_tuple_elem_bridge::<H>(s0, s7, elems, raw, 7);
                    lemma_tuple_elem_bridge::<I>(s0, s8, elems, raw, 8);
                }
                return Err(err);
            },
            None => {
                proof {
                    assert(false);
                }
                return Err(CastError::length(11, 0));
            },
        };
        let ghost s9 = st@;
        let el9 = match t.next_element::<J>(st) {
            Some(Ok(x)) => x,
            Some(Err(err)) => {
                proof {
                    crate::state::lemma_preserved_trans(s0, s1, s2);
                    crate::state::lemma_preserved_trans(s0, s2, s3);
                    crate::state::lemma_preserved_trans(s0, s3, s4);
                    crate::state::lemma_preserved_trans(s0, s4, s5);
                    crate::state::lemma_preserved_trans(s0, s5, s6);
                    crate::state::lemma_preserved_trans(s0, s6, s7);
                    crate::state::lemma_preserved_trans(s0, s7, s8);
                    crate::state::lemma_preserved_trans(s0, s8, s9);
                    lemma_tuple_elem_bridge::<B>(s0, s1, elems, raw, 1);
                    lemma_tuple_elem_bridge::<C>(s0, s2, elems, raw, 2);
                    lemma_tuple_elem_bridge::<D>(s0, s3, elems, raw, 3);
                    lemma_tuple_elem_bridge::<E>(s0, s4, elems, raw, 4);
                    lemma_tuple_elem_bridge::<F>(s0, s5, elems, raw, 5);
                    lemma_tuple_elem_bridge::<G>(s0, s6, elems, raw, 6);
                    lemma_tuple_elem_bridge::<H>(s0, s7, elems, raw, 7);
                    lemma_tuple_elem_bridge::<I>(s0, s8, elems, raw, 8);
                    lemma_tuple_elem_bridge::<J>(s0, s9, elems, raw, 9);
                }
                return Err(err);
            },
            None => {
                proof {
                    assert(false);
                }
                return Err(CastError::length(11, 0));
            },
        };
        let ghost s10 = st@;
        let el10 = match t.next_element::<K>(st) {
            Some(Ok(x)) => x,
            Some(Err(err)) => {
                proof {
                    crate::state::lemma_preserved_trans(s0, s1, s2);
                    crate::state::lemma_preserved_trans(s0, s2, s3);
                    crate::state::lemma_preserved_trans(s0, s3, s4);
                    crate::state::lemma_preserved_trans(s0, s4, s5);
                    crate::state::lemma_preserved_trans(s0, s5, s6);
                    crate::state::lemma_preserved_trans(s0, s6, s7);
                    crate::state::lemma_preserved_trans(s0, s7, s8);
                    crate::state::lemma_preserved_trans(s0, s8, s9);
                    crate::state::lemma_preserved_trans(s0, s9, s10);
                    lemma_tuple_elem_bridge::<B>(s0, s1, elems, raw, 1);
                    lemma_tuple_elem_bridge::<C>(s0, s2, elems, raw, 2);
                    lemma_tuple_elem_bridge::<D>(s0, s3, elems, raw, 3);
                    lemma_tuple_elem_bridge::<E>(s0, s4, elems, raw, 4);
                    lemma_tuple_elem_bridge::<F>(s0, s5, elems, raw, 5);
                    lemma_tuple_elem_bridge::<G>(s0, s6, elems, raw, 6);
                    lemma_tuple_elem_bridge::<H>(s0, s7, elems, raw, 7);
                    lemma_tuple_elem_bridge::<I>(s0, s8, elems, raw, 8);
                    lemma_tuple_elem_bridge::<J>(s0, s9, elems, raw, 9);
                    lemma_tuple_elem_bridge::<K>(s0, s10, elems, raw, 10);
                }
                return Err(err);
            },
            None => {
                proof {
                    assert(false);
                }
                return Err(CastError::length(11, 0));
            },
        };
        proof {
            crate::state::lemma_preserved_trans(s0, s1, s2);
            crate::state::lemma_preserved_trans(s0, s2, s3);
            crate::state::lemma_preserved_trans(s0, s3, s4);
            crate::state::lemma_preserved_trans(s0, s4, s5);
            crate::state::lemma_preserved_trans(s0, s5, s6);
            crate::state::lemma_preserved_trans(s0, s6, s7);
            crate::state::lemma_preserved_trans(s0, s7, s8);
            crate::state::lemma_preserved_trans(s0, s8, s9);
            crate::state::lemma_preserved_trans(s0, s9, s10);
            lemma_tuple_elem_bridge::<B>(s0, s1, elems, raw, 1);
            lemma_tuple_elem_bridge::<C>(s0, s2, elems, raw, 2);
            lemma_tuple_elem_bridge::<D>(s0, s3, elems, raw, 3);
            lemma_tuple_elem_bridge::<E>(s0, s4, elems, raw, 4);
            lemma_tuple_elem_bridge::<F>(s0, s5, elems, raw, 5);
            lemma_tuple_elem_bridge::<G>(s0, s6, elems, raw, 6);
            lemma_tuple_elem_bridge::<H>(s0, s7, elems, raw, 7);
            lemma_tuple_elem_bridge::<I>(s0, s8, elems, raw, 8);
            lemma_tuple_elem_bridge::<J>(s0, s9, elems, raw, 9);
            lemma_tuple_elem_bridge::<K>(s0, s10, elems, raw, 10);
        }
        Ok((el0, el1, el2, el3, el4, el5, el6, el7, el8, el9, el10))
    }
}

impl<A: FromValue, B: FromValue, C: FromValue, D: FromValue, E: FromValue, F: FromValue, G: FromValue, H: FromValue, I: FromValue, J: FromValue, K: FromValue, L: FromValue> FromValue for (A, B, C, D, E, F, G, H, I, J, K, L) {
    open spec fn de_spec(s: StateM, v: RawValue) -> Result<Datum, ErrModel> {
        match v {
            RawValue::Ary(i) => if i < s.arrays.len() {
                let elems = s.arrays[i as int];
                if elems.len() != 12 {
                    Err(ErrModel::Length(12, elems.len() as int))
                } else {
                    match A::de_spec(s, elems[0]) {
                        Err(e) => Err(e),
                        Ok(d0) => match B::de_spec(s, elems[1]) {
                        Err(e) => Err(e),
                        Ok(d1) => match C::de_spec(s, elems[2]) {
                        Err(e) => Err(e),
                        Ok(d2) => match D::de_spec(s, elems[3]) {
                        Err(e) => Err(e),
                        Ok(d3) => match E::de_spec(s, elems[4]) {
                        Err(e) => Err(e),
                        Ok(d4) => match F::de_spec(s, elems[5]) {
                        Err(e) => Err(e),
                        Ok(d5) => match G::de_spec(s, elems[6]) {
                        Err(e) => Err(e),
                        Ok(d6) => match H::de_spec(s, elems[7]) {
                        Err(e) => Err(e),
                        Ok(d7) => match I::de_spec(s, elems[8]) {
                        Err(e) => Err(e),
                        Ok(d8) => match J::de_spec(s, elems[9]) {
                        Err(e) => Err(e),
                        Ok(d9) => match K::de_spec(s, elems[10]) {
                        Err(e) => Err(e),
                        Ok(d10) => match L::de_spec(s, elems[11]) {
                        Err(e) => Err(e),
                        Ok(d11) => Ok(Datum::Ary(seq![d0, d1, d2, d3, d4, d5, d6, d7, d8, d9, d10, d11])),
                    },
                    },
                    },
                    },
                    },
                    },
                    },
                    },
                    },
                    },
                    },
                    }
                }
            } else {
                Err(ErrModel::Length(12, 0))
            },
            _ => Err(ErrModel::Length(12, 0)),
        }
    }

    proof fn lemma_de_spec_preserved(s1: StateM, s2: StateM, v: RawValue) {
        if v is Ary && (v->Ary_0 as int) < s1.arrays.len() {
            let i = v->Ary_0 as int;
            let elems = s1.arrays[i];
            assert(s2.arrays[i] == elems);
            if elems.len() == 12 {
                assert(raw_valid(s1, elems[0]));
                assert(raw_valid(s1, elems[1]));
                assert(raw_valid(s1, elems[2]));
                assert(raw_valid(s1, elems[3]));
                assert(raw_valid(s1, elems[4]));
                assert(raw_valid(s1, elems[5]));
                assert(raw_valid(s1, elems[6]));
                assert(raw_valid(s1, elems[7]));
                assert(raw_valid(s1, elems[8]));
                assert(raw_valid(s1, elems[9]));
                assert(raw_valid(s1, elems[10]));
                assert(raw_valid(s1, elems[11]));
                A::lemma_de_spec_preserved(s1, s2, elems[0]);
                B::lemma_de_spec_preserved(s1, s2, elems[1]);
                C::lemma_de_spec_preserved(s1, s2, elems[2]);
                D::lemma_de_spec_preserved(s1, s2, elems[3]);
                E::lemma_de_spec_preserved(s1, s2, elems[4]);
                F::lemma_de_spec_preserved(s1, s2, elems[5]);
                G::lemma_de_spec_preserved(s1, s2, elems[6]);
                H::lemma_de_spec_preserved(s1, s2, elems[7]);
                I::lemma_de_spec_preserved(s1, s2, elems[8]);
                J::lemma_de_spec_preserved(s1, s2, elems[9]);
                K::lemma_de_spec_preserved(s1, s2, elems[10]);
                L::lemma_de_spec_preserved(s1, s2, elems[11]);
            }
        }
    }

    fn from_value(de: Deserializer, st: &mut State) -> (r: Result<Self, CastError>) {
        let ghost s0 = old(st)@;
        let ghost raw = de@;
        let mut t = de.deserialize_tuple(st);
        let n = t.len();
        if n != 12 {
            return Err(CastError::length(12, n));
        }
        let ghost elems = s0.arrays[raw->Ary_0 as int];
        let el0 = match t.next_element::<A>(st) {
            Some(Ok(x)) => x,
            Some(Err(err)) => {
                return Err(err);
            },
            None => {
                proof {
                    assert(false);
                }
                return Err(CastError::length(12, 0));
            },
        };
        let ghost s1 = st@;
        let el1 = match t.next_element::<B>(st) {
            Some(Ok(x)) => x,
            Some(Err(err)) => {
                proof {
                    lemma_tuple_elem_bridge::<B>(s0, s1, elems, raw, 1);
                }
                return Err(err);
            },
            None => {
                proof {
                    assert(false);
                }
                return Err(CastError::length(12, 0));
            },
        };
        let ghost s2 = st@;
        let el2 = match t.next_element::<C>(st) {
            Some(Ok(x)) => x,
            Some(Err(err)) => {
                proof {
                    crate::state::lemma_preserved_trans(s0, s1, s2);
                    lemma_tuple_elem_bridge::<B>(s0, s1, elems, raw, 1);
                    lemma_tuple_elem_bridge::<C>(s0, s2, elems, raw, 2);
                }
                return Err(err);
            },
            None => {
                proof {
                    assert(false);
                }
                return Err(CastError::length(12, 0));
            },
        };
        let ghost s3 = st@;
        let el3 = match t.next_element::<D>(st) {
            Some(Ok(x)) => x,
            Some(Err(err)) => {
                proof {
                    crate::state::lemma_preserved_trans(s0, s1, s2);
                    crate::state::lemma_preserved_trans(s0, s2, s3);
                    lemma_tuple_elem_bridge::<B>(s0, s1, elems, raw, 1);
                    lemma_tuple_elem_bridge::<C>(s0, s2, elems, raw, 2);
                    lemma_tuple_elem_bridge::<D>(s0, s3, elems, raw, 3);
                }
                return Err(err);
            },
            None => {
                proof {
                    assert(false);
                }
                return Err(CastError::length(12, 0));
            },
        };
        let ghost s4 = st@;
        let el4 = match t.next_element::<E>(st) {
            Some(Ok(x)) => x,
            Some(Err(err)) => {
                proof {
                    crate::state::lemma_preserved_trans(s0, s1, s2);
                    crate::state::lemma_preserved_trans(s0, s2, s3);
                    crate::state::lemma_preserved_trans(s0, s3, s4);
                    lemma_tuple_elem_bridge::<B>(s0, s1, elems, raw, 1);
                    lemma_tuple_elem_bridge::<C>(s0, s2, elems, raw, 2);
                    lemma_tuple_elem_bridge::<D>(s0, s3, elems, raw, 3);
                    lemma_tuple_elem_bridge::<E>(s0, s4, elems, raw, 4);
                }
                return Err(err);
            },
            None => {
                proof {
                    assert(false);
                }
                return Err(CastError::length(12, 0));
            },
        };
        let ghost s5 = st@;
        let el5 = match t.next_element::<F>(st) {
            Some(Ok(x)) => x,
            Some(Err(err)) => {
                proof {
                    crate::state::lemma_preserved_trans(s0, s1, s2);
                    crate::state::lemma_preserved_trans(s0, s2, s3);
                    crate::state::lemma_preserved_trans(s0, s3, s4);
                    crate::state::lemma_preserved_trans(s0, s4, s5);
                    lemma_tuple_elem_bridge::<B>(s0, s1, elems, raw, 1);
                    lemma_tuple_elem_bridge::<C>(s0, s2, elems, raw, 2);
                    lemma_tuple_elem_bridge::<D>(s0, s3, elems, raw, 3);
                    lemma_tuple_elem_bridge::<E>(s0, s4, elems, raw, 4);
                    lemma_tuple_elem_bridge::<F>(s0, s5, elems, raw, 5);
                }
                return Err(err);
            },
            None => {
                proof {
                    assert(false);
                }
                return Err(CastError::length(12, 0));
            },
        };
        let ghost s6 = st@;
        let el6 = match t.next_element::<G>(st) {
            Some(Ok(x)) => x,
            Some(Err(err)) => {
                proof {
                    crate::state::lemma_preserved_trans(s0, s1, s2);
                    crate::state::lemma_preserved_trans(s0, s2, s3);
                    crate::state::lemma_preserved_trans(s0, s3, s4);
                    crate::state::lemma_preserved_trans(s0, s4, s5);
                    crate::state::lemma_preserved_trans(s0, s5, s6);
                    lemma_tuple_elem_bridge::<B>(s0, s1, elems, raw, 1);
                    lemma_tuple_elem_bridge::<C>(s0, s2, elems, raw, 2);
                    lemma_tuple_elem_bridge::<D>(s0, s3, elems, raw, 3);
                    lemma_tuple_elem_bridge::<E>(s0, s4, elems, raw, 4);
                    lemma_tuple_elem_bridge::<F>(s0, s5, elems, raw, 5);
                    lemma_tuple_elem_bridge::<G>(s0, s6, elems, raw, 6);
                }
                return Err(err);
            },
            None => {
                proof {
                    assert(false);
                }
                return Err(CastError::length(12, 0));
            },
        };
        let ghost s7 = st@;
        let el7 = match t.next_element::<H>(st) {
            Some(Ok(x)) => x,
            Some(Err(err)) => {
                proof {
                    crate::state::lemma_preserved_trans(s0, s1, s2);
                    crate::state::lemma_preserved_trans(s0, s2, s3);
                    crate::state::lemma_preserved_trans(s0, s3, s4);
                    crate::state::lemma_preserved_trans(s0, s4, s5);
                    crate::state::lemma_preserved_trans(s0, s5, s6);
                    crate::state::lemma_preserved_trans(s0, s6, s7);
                    lemma_tuple_elem_bridge::<B>(s0, s1, elems, raw, 1);
                    lemma_tuple_elem_bridge::<C>(s0, s2, elems, raw, 2);
                    lemma_tuple_elem_bridge::<D>(s0, s3, elems, raw, 3);
                    lemma_tuple_elem_bridge::<E>(s0, s4, elems, raw, 4);
                    lemma_tuple_elem_bridge::<F>(s0, s5, elems, raw, 5);
                    lemma_tuple_elem_bridge::<G>(s0, s6, elems, raw, 6);
                    lemma_tuple_elem_bridge::<H>(s0, s7, elems, raw, 7);
                }
                return Err(err);
            },
            None => {
                proof {
                    assert(false);
                }
                return Err(CastError::length(12, 0));
            },
        };
        let ghost s8 = st@;
        let el8 = match t.next_element::<I>(st) {
            Some(Ok(x)) => x,
            Some(Err(err)) => {
                proof {
                    crate::state::lemma_preserved_trans(s0, s1, s2);
                    crate::state::lemma_preserved_trans(s0, s2, s3);
                    crate::state::lemma_preserved_trans(s0, s3, s4);
                    crate::state::lemma_preserved_trans(s0, s4, s5);
                    crate::state::lemma_preserved_trans(s0, s5, s6);
                    crate::state::lemma_preserved_trans(s0, s6, s7);
                    crate::state::lemma_preserved_trans(s0, s7, s8);
                    lemma_tuple_elem_bridge::<B>(s0, s1, elems, raw, 1);
                    lemma_tuple_elem_bridge::<C>(s0, s2, elems, raw, 2);
                    lemma_tuple_elem_bridge::<D>(s0, s3, elems, raw, 3);
                    lemma_tuple_elem_bridge::<E>(s0, s4, elems, raw, 4);
                    lemma_tuple_elem_bridge::<F>(s0, s5, elems, raw, 5);
                    lemma_tuple_elem_bridge::<G>(s0, s6, elems, raw, 6);
                    lemma_tuple_elem_bridge::<H>(s0, s7, elems, raw, 7);
                    lemma_tuple_elem_bridge::<I>(s0, s8, elems, raw, 8);
                }
                return Err(err);
            },
            None => {
                proof {
                    assert(false);
                }
                return Err(CastError::length(12, 0));
            },
        };
        let ghost s9 = st@;
        let el9 = match t.next_element::<J>(st) {
            Some(Ok(x)) => x,
            Some(Err(err)) => {
                proof {
                    crate::state::lemma_preserved_trans(s0, s1, s2);
                    crate::state::lemma_preserved_trans(s0, s2, s3);
                    crate::state::lemma_preserved_trans(s0, s3, s4);
                    crate::state::lemma_preserved_trans(s0, s4, s5);
                    crate::state::lemma_preserved_trans(s0, s5, s6);
                    crate::state::lemma_preserved_trans(s0, s6, s7);
                    crate::state::lemma_preserved_trans(s0, s7, s8);
                    crate::state::lemma_preserved_trans(s0, s8, s9);
                    lemma_tuple_elem_bridge::<B>(s0, s1, elems, raw, 1);
                    lemma_tuple_elem_bridge::<C>(s0, s2, elems, raw, 2);
                    lemma_tuple_elem_bridge::<D>(s0, s3, elems, raw, 3);
                    lemma_tuple_elem_bridge::<E>(s0, s4, elems, raw, 4);
                    lemma_tuple_elem_bridge::<F>(s0, s5, elems, raw, 5);
                    lemma_tuple_elem_bridge::<G>(s0, s6, elems, raw, 6);
                    lemma_tuple_elem_bridge::<H>(s0, s7, elems, raw, 7);
                    lemma_tuple_elem_bridge::<I>(s0, s8, elems, raw, 8);
                    lemma_tuple_elem_bridge::<J>(s0, s9, elems, raw, 9);
                }
                return Err(err);
            },
            None => {
                proof {
                    assert(false);
                }
                return Err(CastError::length(12, 0));
            },
        };
        let ghost s10 = st@;
        let el10 = match t.next_element::<K>(st) {
            Some(Ok(x)) => x,
            Some(Err(err)) => {
                proof {
                    crate::state::lemma_preserved_trans(s0, s1, s2);
                    crate::state::lemma_preserved_trans(s0, s2, s3);
                    crate::state::lemma_preserved_trans(s0, s3, s4);
                    crate::state::lemma_preserved_trans(s0, s4, s5);
                    crate::state::lemma_preserved_trans(s0, s5, s6);
                    crate::state::lemma_preserved_trans(s0, s6, s7);
                    crate::state::lemma_preserved_trans(s0, s7, s8);
                    crate::state::lemma_preserved_trans(s0, s8, s9);
                    crate::state::lemma_preserved_trans(s0, s9, s10);
                    lemma_tuple_elem_bridge::<B>(s0, s1, elems, raw, 1);
                    lemma_tuple_elem_bridge::<C>(s0, s2, elems, raw, 2);
                    lemma_tuple_elem_bridge::<D>(s0, s3, elems, raw, 3);
                    lemma_tuple_elem_bridge::<E>(s0, s4, elems, raw, 4);
                    lemma_tuple_elem_bridge::<F>(s0, s5, elems, raw, 5);
                    lemma_tuple_elem_bridge::<G>(s0, s6, elems, raw, 6);
                    lemma_tuple_elem_bridge::<H>(s0, s7, elems, raw, 7);
                    lemma_tuple_elem_bridge::<I>(s0, s8, elems, raw, 8);
                    lemma_tuple_elem_bridge::<J>(s0, s9, elems, raw, 9);
                    lemma_tuple_elem_bridge::<K>(s0, s10, elems, raw, 10);
                }
                return Err(err);
            },
            None => {
                proof {
                    assert(false);
                }
                return Err(CastError::length(12, 0));
            },
        };
        let ghost s11 = st@;
        let el11 = match t.next_element::<L>(st) {
            Some(Ok(x)) => x,
            Some(Err(err)) => {
                proof {
                    crate::state::lemma_preserved_trans(s0, s1, s2);
                    crate::state::lemma_preserved_trans(s0, s2, s3);
                    crate::state::lemma_preserved_trans(s0, s3, s4);
                    crate::state::lemma_preserved_trans(s0, s4, s5);
                    crate::state::lemma_preserved_trans(s0, s5, s6);
                    crate::state::lemma_preserved_trans(s0, s6, s7);
                    crate::state::lemma_preserved_trans(s0, s7, s8);
                    crate::state::lemma_preserved_trans(s0, s8, s9);
                    crate::state::lemma_preserved_trans(s0, s9, s10);
                    crate::state::lemma_preserved_trans(s0, s10, s11);
                    lemma_tuple_elem_bridge::<B>(s0, s1, elems, raw, 1);
                    lemma_tuple_elem_bridge::<C>(s0, s2, elems, raw, 2);
                    lemma_tuple_elem_bridge::<D>(s0, s3, elems, raw, 3);
                    lemma_tuple_elem_bridge::<E>(s0, s4, elems, raw, 4);
                    lemma_tuple_elem_bridge::<F>(s0, s5, elems, raw, 5);
                    lemma_tuple_elem_bridge::<G>(s0, s6, elems, raw, 6);
                    lemma_tuple_elem_bridge::<H>(s0, s7, elems, raw, 7);
                    lemma_tuple_elem_bridge::<I>(s0, s8, elems, raw, 8);
                    lemma_tuple_elem_bridge::<J>(s0, s9, elems, raw, 9);
                    lemma_tuple_elem_bridge::<K>(s0, s10, elems, raw, 10);
                    lemma_tuple_elem_bridge::<L>(s0, s11, elems, raw, 11);
                }
                return Err(err);
            },
            None => {
                proof {
                    assert(false);
                }
                return Err(CastError::length(12, 0));
            },
        };
        proof {
            crate::state::lemma_preserved_trans(s0, s1, s2);
            crate::state::lemma_preserved_trans(s0, s2, s3);
            crate::state::lemma_preserved_trans(s0, s3, s4);
            crate::state::lemma_preserved_trans(s0, s4, s5);
            crate::state::lemma_preserved_trans(s0, s5, s6);
            crate::state::lemma_preserved_trans(s0, s6, s7);
            crate::state::lemma_preserved_trans(s0, s7, s8);
            crate::state::lemma_preserved_trans(s0, s8, s9);
            crate::state::lemma_preserved_trans(s0, s9, s10);
            crate::state::lemma_preserved_trans(s0, s10, s11);
            lemma_tuple_elem_bridge::<B>(s0, s1, elems, raw, 1);
            lemma_tuple_elem_bridge::<C>(s0, s2, elems, raw, 2);
            lemma_tuple_elem_bridge::<D>(s0, s3, elems, raw, 3);
            lemma_tuple_elem_bridge::<E>(s0, s4, elems, raw, 4);
            lemma_tuple_elem_bridge::<F>(s0, s5, elems, raw, 5);
            lemma_tuple_elem_bridge::<G>(s0, s6, elems, raw, 6);
            lemma_tuple_elem_bridge::<H>(s0, s7, elems, raw, 7);
            lemma_tuple_elem_bridge::<I>(s0, s8, elems, raw, 8);
            lemma_tuple_elem_bridge::<J>(s0, s9, elems, raw, 9);
            lemma_tuple_elem_bridge::<K>(s0, s10, elems, raw, 10);
            lemma_tuple_elem_bridge::<L>(s0, s11, elems, raw, 11);
        }
        Ok((el0, el1, el2, el3, el4, el5, el6, el7, el8, el9, el10, el11))
    }
}

impl<A: FromValue, B: FromValue, C: FromValue, D: FromValue, E: FromValue, F: FromValue, G: FromValue, H: FromValue, I: FromValue, J: FromValue, K: FromValue, L: FromValue, M: FromValue> FromValue for (A, B, C, D, E, F, G, H, I, J, K, L, M) {
    open spec fn de_spec(s: StateM, v: RawValue) -> Result<Datum, ErrModel> {
        match v {
            RawValue::Ary(i) => if i < s.arrays.len() {
                let elems = s.arrays[i as int];
                if elems.len() != 13 {
                    Err(ErrModel::Length(13, elems.len() as int))
                } else {
                    match A::de_spec(s, elems[0]) {
                        Err(e) => Err(e),
                        Ok(d0) => match B::de_spec(s, elems[1]) {
                        Err(e) => Err(e),
                        Ok(d1) => match C::de_spec(s, elems[2]) {
                        Err(e) => Err(e),
                        Ok(d2) => match D::de_spec(s, elems[3]) {
                        Err(e) => Err(e),
                        Ok(d3) => match E::de_spec(s, elems[4]) {
                        Err(e) => Err(e),
                        Ok(d4) => match F::de_spec(s, elems[5]) {
                        Err(e) => Err(e),
                        Ok(d5) => match G::de_spec(s, elems[6]) {
                        Err(e) => Err(e),
                        Ok(d6) => match H::de_spec(s, elems[7]) {
                        Err(e) => Err(e),
                        Ok(d7) => match I::de_spec(s, elems[8]) {
                        Err(e) => Err(e),
                        Ok(d8) => match J::de_spec(s, elems[9]) {
                        Err(e) => Err(e),
                        Ok(d9) => match K::de_spec(s, elems[10]) {
                        Err(e) => Err(e),
                        Ok(d10) => match L::de_spec(s, elems[11]) {
                        Err(e) => Err(e),
                        Ok(d11) => match M::de_spec(s, elems[12]) {
                        Err(e) => Err(e),
                        Ok(d12) => Ok(Datum::Ary(seq![d0, d1, d2, d3, d4, d5, d6, d7, d8, d9, d10, d11, d12])),
                    },
                    },
                    },
                    },
                    },
                    },
                    },
                    },
                    },
                    },
                    },
                    },
                    }
                }
            } else {
                Err(ErrModel::Length(13, 0))
            },
            _ => Err(ErrModel::Length(13, 0)),
        }
    }

    proof fn lemma_de_spec_preserved(s1: StateM, s2: StateM, v: RawValue) {
        if v is Ary && (v->Ary_0 as int) < s1.arrays.len() {
            let i = v->Ary_0 as int;
            let elems = s1.arrays[i];
            assert(s2.arrays[i] == elems);
            if elems.len() == 13 {
                assert(raw_valid(s1, elems[0]));
                assert(raw_valid(s1, elems[1]));
                assert(raw_valid(s1, elems[2]));
                assert(raw_valid(s1, elems[3]));
                assert(raw_valid(s1, elems[4]));
                assert(raw_valid(s1, elems[5]));
                assert(raw_valid(s1, elems[6]));
                assert(raw_valid(s1, elems[7]));
                assert(raw_valid(s1, elems[8]));
                assert(raw_valid(s1, elems[9]));
                assert(raw_valid(s1, elems[10]));
                assert(raw_valid(s1, elems[11]));
                assert(raw_valid(s1, elems[12]));
                A::lemma_de_spec_preserved(s1, s2, elems[0]);
                B::lemma_de_spec_preserved(s1, s2, elems[1]);
                C::lemma_de_spec_preserved(s1, s2, elems[2]);
                D::lemma_de_spec_preserved(s1, s2, elems[3]);
                E::lemma_de_spec_preserved(s1, s2, elems[4]);
                F::lemma_de_spec_preserved(s1, s2, elems[5]);
                G::lemma_de_spec_preserved(s1, s2, elems[6]);
                H::lemma_de_spec_preserved(s1, s2, elems[7]);
                I::lemma_de_spec_preserved(s1, s2, elems[8]);
                J::lemma_de_spec_preserved(s1, s2, elems[9]);
                K::lemma_de_spec_preserved(s1, s2, elems[10]);
                L::lemma_de_spec_preserved(s1, s2, elems[11]);
                M::lemma_de_spec_preserved(s1, s2, elems[12]);
            }
        }
    }

    fn from_value(de: Deserializer, st: &mut State) -> (r: Result<Self, CastError>) {
        let ghost s0 = old(st)@;
        let ghost raw = de@;
        let mut t = de.deserialize_tuple(st);
        let n = t.len();
        if n != 13 {
            return Err(CastError::length(13, n));
        }
        let ghost elems = s0.arrays[raw->Ary_0 as int];
        let el0 = match t.next_element::<A>(st) {
            Some(Ok(x)) => x,
            Some(Err(err)) => {
                return Err(err);
            },
            None => {
                proof {
                    assert(false);
                }
                return Err(CastError::length(13, 0));
            },
        };
        let ghost s1 = st@;
        let el1 = match t.next_element::<B>(st) {
            Some(Ok(x)) => x,
            Some(Err(err)) => {
                proof {
                    lemma_tuple_elem_bridge::<B>(s0, s1, elems, raw, 1);
                }
                return Err(err);
            },
            None => {
                proof {
                    assert(false);
                }
                return Err(CastError::length(13, 0));
            },
        };
        let ghost s2 = st@;
        let el2 = match t.next_element::<C>(st) {
            Some(Ok(x)) => x,
            Some(Err(err)) => {
                proof {
                    crate::state::lemma_preserved_trans(s0, s1, s2);
                    lemma_tuple_elem_bridge::<B>(s0, s1, elems, raw, 1);
                    lemma_tuple_elem_bridge::<C>(s0, s2, elems, raw, 2);
                }
                return Err(err);
            },
            None => {
                proof {
                    assert(false);
                }
                return Err(CastError::length(13, 0));
            },
        };
        let ghost s3 = st@;
        let el3 = match t.next_element::<D>(st) {
            Some(Ok(x)) => x,
            Some(Err(err)) => {
                proof {
                    crate::state::lemma_preserved_trans(s0, s1, s2);
                    crate::state::lemma_preserved_trans(s0, s2, s3);
                    lemma_tuple_elem_bridge::<B>(s0, s1, elems, raw, 1);
                    lemma_tuple_elem_bridge::<C>(s0, s2, elems, raw, 2);
                    lemma_tuple_elem_bridge::<D>(s0, s3, elems, raw, 3);
                }
                return Err(err);
            },
            None => {
                proof {
                    assert(false);
                }
                return Err(CastError::length(13, 0));
            },
        };
        let ghost s4 = st@;
        let el4 = match t.next_element::<E>(st) {
            Some(Ok(x)) => x,
            Some(Err(err)) => {
                proof {
                    crate::state::lemma_preserved_trans(s0, s1, s2);
                    crate::state::lemma_preserved_trans(s0, s2, s3);
                    crate::state::lemma_preserved_trans(s0, s3, s4);
                    lemma_tuple_elem_bridge::<B>(s0, s1, elems, raw, 1);
                    lemma_tuple_elem_bridge::<C>(s0, s2, elems, raw, 2);
                    lemma_tuple_elem_bridge::<D>(s0, s3, elems, raw, 3);
                    lemma_tuple_elem_bridge::<E>(s0, s4, elems, raw, 4);
                }
                return Err(err);
            },
            None => {
                proof {
                    assert(false);
                }
                return Err(CastError::length(13, 0));
            },
        };
        let ghost s5 = st@;
        let el5 = match t.next_element::<F>(st) {
            Some(Ok(x)) => x,
            Some(Err(err)) => {
                proof {
                    crate::state::lemma_preserved_trans(s0, s1, s2);
                    crate::state::lemma_preserved_trans(s0, s2, s3);
                    crate::state::lemma_preserved_trans(s0, s3, s4);
                    crate::state::lemma_preserved_trans(s0, s4, s5);
                    lemma_tuple_elem_bridge::<B>(s0, s1, elems, raw, 1);
                    lemma_tuple_elem_bridge::<C>(s0, s2, elems, raw, 2);
                    lemma_tuple_elem_bridge::<D>(s0, s3, elems, raw, 3);
                    lemma_tuple_elem_bridge::<E>(s0, s4, elems, raw, 4);
                    lemma_tuple_elem_bridge::<F>(s0, s5, elems, raw, 5);
                }
                return Err(err);
            },
            None => {
                proof {
                    assert(false);
                }
                return Err(CastError::length(13, 0));
            },
        };
        let ghost s6 = st@;
        let el6 = match t.next_element::<G>(st) {
            Some(Ok(x)) => x,
            Some(Err(err)) => {
                proof {
                    crate::state::lemma_preserved_trans(s0, s1, s2);
                    crate::state::lemma_preserved_trans(s0, s2, s3);
                    crate::state::lemma_preserved_trans(s0, s3, s4);
                    crate::state::lemma_preserved_trans(s0, s4, s5);
                    crate::state::lemma_preserved_trans(s0, s5, s6);
                    lemma_tuple_elem_bridge::<B>(s0, s1, elems, raw, 1);
                    lemma_tuple_elem_bridge::<C>(s0, s2, elems, raw, 2);
                    lemma_tuple_elem_bridge::<D>(s0, s3, elems, raw, 3);
                    lemma_tuple_elem_bridge::<E>(s0, s4, elems, raw, 4);
                    lemma_tuple_elem_bridge::<F>(s0, s5, elems, raw, 5);
                    lemma_tuple_elem_bridge::<G>(s0, s6, elems, raw, 6);
                }
                return Err(err);
            },
            None => {
                proof {
                    assert(false);
                }
                return Err(CastError::length(13, 0));
            },
        };
        let ghost s7 = st@;
        let el7 = match t.next_element::<H>(st) {
            Some(Ok(x)) => x,
            Some(Err(err)) => {
                proof {
                    crate::state::lemma_preserved_trans(s0, s1, s2);
                    crate::state::lemma_preserved_trans(s0, s2, s3);
                    crate::state::lemma_preserved_trans(s0, s3, s4);
                    crate::state::lemma_preserved_trans(s0, s4, s5);
                    crate::state::lemma_preserved_trans(s0, s5, s6);
                    crate::state::lemma_preserved_trans(s0, s6, s7);
                    lemma_tuple_elem_bridge::<B>(s0, s1, elems, raw, 1);
                    lemma_tuple_elem_bridge::<C>(s0, s2, elems, raw, 2);
                    lemma_tuple_elem_bridge::<D>(s0, s3, elems, raw, 3);
                    lemma_tuple_elem_bridge::<E>(s0, s4, elems, raw, 4);
                    lemma_tuple_elem_bridge::<F>(s0, s5, elems, raw, 5);
                    lemma_tuple_elem_bridge::<G>(s0, s6, elems, raw, 6);
                    lemma_tuple_elem_bridge::<H>(s0, s7, elems, raw, 7);
                }
                return Err(err);
            },
            None => {
                proof {
                    assert(false);
                }
                return Err(CastError::length(13, 0));
            },
        };
        let ghost s8 = st@;
        let el8 = match t.next_element::<I>(st) {
            Some(Ok(x)) => x,
            Some(Err(err)) => {
                proof {
                    crate::state::lemma_preserved_trans(s0, s1, s2);
                    crate::state::lemma_preserved_trans(s0, s2, s3);
                    crate::state::lemma_preserved_trans(s0, s3, s4);
                    crate::state::lemma_preserved_trans(s0, s4, s5);
                    crate::state::lemma_preserved_trans(s0, s5, s6);
                    crate::state::lemma_preserved_trans(s0, s6, s7);
                    crate::state::lemma_preserved_trans(s0, s7, s8);
                    lemma_tuple_elem_bridge::<B>(s0, s1, elems, raw, 1);
                    lemma_tuple_elem_bridge::<C>(s0, s2, elems, raw, 2);
                    lemma_tuple_elem_bridge::<D>(s0, s3, elems, raw, 3);
                    lemma_tuple_elem_bridge::<E>(s0, s4, elems, raw, 4);
                    lemma_tuple_elem_bridge::<F>(s0, s5, elems, raw, 5);
                    lemma_tuple_elem_bridge::<G>(s0, s6, elems, raw, 6);
                    lemma_tuple_elem_bridge::<H>(s0, s7, elems, raw, 7);
                    lemma_tuple_elem_bridge::<I>(s0, s8, elems, raw, 8);
                }
                return Err(err);
            },
            None => {
                proof {
                    assert(false);
                }
                return Err(CastError::length(13, 0));
            },
        };
        let ghost s9 = st@;
        let el9 = match t.next_element::<J>(st) {
            Some(Ok(x)) => x,
            Some(Err(err)) => {
                proof {
                    crate::state::lemma_preserved_trans(s0, s1, s2);
                    crate::state::lemma_preserved_trans(s0, s2, s3);
                    crate::state::lemma_preserved_trans(s0, s3, s4);
                    crate::state::lemma_preserved_trans(s0, s4, s5);
                    crate::state::lemma_preserved_trans(s0, s5, s6);
                    crate::state::lemma_preserved_trans(s0, s6, s7);
                    crate::state::lemma_preserved_trans(s0, s7, s8);
                    crate::state::lemma_preserved_trans(s0, s8, s9);
                    lemma_tuple_elem_bridge::<B>(s0, s1, elems, raw, 1);
                    lemma_tuple_elem_bridge::<C>(s0, s2, elems, raw, 2);
                    lemma_tuple_elem_bridge::<D>(s0, s3, elems, raw, 3);
                    lemma_tuple_elem_bridge::<E>(s0, s4, elems, raw, 4);
                    lemma_tuple_elem_bridge::<F>(s0, s5, elems, raw, 5);
                    lemma_tuple_elem_bridge::<G>(s0, s6, elems, raw, 6);
                    lemma_tuple_elem_bridge::<H>(s0, s7, elems, raw, 7);
                    lemma_tuple_elem_bridge::<I>(s0, s8, elems, raw, 8);
                    lemma_tuple_elem_bridge::<J>(s0, s9, elems, raw, 9);
                }
                return Err(err);
            },
            None => {
                proof {
                    assert(false);
                }
                return Err(CastError::length(13, 0));
            },
        };
        let ghost s10 = st@;
        let el10 = match t.next_element::<K>(st) {
            Some(Ok(x)) => x,
            Some(Err(err)) => {
                proof {
                    crate::state::lemma_preserved_trans(s0, s1, s2);
                    crate::state::lemma_preserved_trans(s0, s2, s3);
                    crate::state::lemma_preserved_trans(s0, s3, s4);
                    crate::state::lemma_preserved_trans(s0, s4, s5);
                    crate::state::lemma_preserved_trans(s0, s5, s6);
                    crate::state::lemma_preserved_trans(s0, s6, s7);
                    crate::state::lemma_preserved_trans(s0, s7, s8);
                    crate::state::lemma_preserved_trans(s0, s8, s9);
                    crate::state::lemma_preserved_trans(s0, s9, s10);
                    lemma_tuple_elem_bridge::<B>(s0, s1, elems, raw, 1);
                    lemma_tuple_elem_bridge::<C>(s0, s2, elems, raw, 2);
                    lemma_tuple_elem_bridge::<D>(s0, s3, elems, raw, 3);
                    lemma_tuple_elem_bridge::<E>(s0, s4, elems, raw, 4);
                    lemma_tuple_elem_bridge::<F>(s0, s5, elems, raw, 5);
                    lemma_tuple_elem_bridge::<G>(s0, s6, elems, raw, 6);
                    lemma_tuple_elem_bridge::<H>(s0, s7, elems, raw, 7);
                    lemma_tuple_elem_bridge::<I>(s0, s8, elems, raw, 8);
                    lemma_tuple_elem_bridge::<J>(s0, s9, elems, raw, 9);
                    lemma_tuple_elem_bridge::<K>(s0, s10, elems, raw, 10);
                }
                return Err(err);
            },
            None => {
                proof {
                    assert(false);
                }
                return Err(CastError::length(13, 0));
            },
        };
        let ghost s11 = st@;
        let el11 = match t.next_element::<L>(st) {
            Some(Ok(x)) => x,
            Some(Err(err)) => {
                proof {
                    crate::state::lemma_preserved_trans(s0, s1, s2);
                    crate::state::lemma_preserved_trans(s0, s2, s3);
                    crate::state::lemma_preserved_trans(s0, s3, s4);
                    crate::state::lemma_preserved_trans(s0, s4, s5);
                    crate::state::lemma_preserved_trans(s0, s5, s6);
                    crate::state::lemma_preserved_trans(s0, s6, s7);
                    crate::state::lemma_preserved_trans(s0, s7, s8);
                    crate::state::lemma_preserved_trans(s0, s8, s9);
                    crate::state::lemma_preserved_trans(s0, s9, s10);
                    crate::state::lemma_preserved_trans(s0, s10, s11);
                    lemma_tuple_elem_bridge::<B>(s0, s1, elems, raw, 1);
                    lemma_tuple_elem_bridge::<C>(s0, s2, elems, raw, 2);
                    lemma_tuple_elem_bridge::<D>(s0, s3, elems, raw, 3);
                    lemma_tuple_elem_bridge::<E>(s0, s4, elems, raw, 4);
                    lemma_tuple_elem_bridge::<F>(s0, s5, elems, raw, 5);
                    lemma_tuple_elem_bridge::<G>(s0, s6, elems, raw, 6);
                    lemma_tuple_elem_bridge::<H>(s0, s7, elems, raw, 7);
                    lemma_tuple_elem_bridge::<I>(s0, s8, elems, raw, 8);
                    lemma_tuple_elem_bridge::<J>(s0, s9, elems, raw, 9);
                    lemma_tuple_elem_bridge::<K>(s0, s10, elems, raw, 10);
                    lemma_tuple_elem_bridge::<L>(s0, s11, elems, raw, 11);
                }
                return Err(err);
            },
            None => {
                proof {
                    assert(false);
                }
                return Err(CastError::length(13, 0));
            },
        };
        let ghost s12 = st@;
        let el12 = match t.next_element::<M>(st) {
            Some(Ok(x)) => x,
            Some(Err(err)) => {
                proof {
                    crate::state::lemma_preserved_trans(s0, s1, s2);
                    crate::state::lemma_preserved_trans(s0, s2, s3);
                    crate::state::lemma_preserved_trans(s0, s3, s4);
                    crate::state::lemma_preserved_trans(s0, s4, s5);
                    crate::state::lemma_preserved_trans(s0, s5, s6);
                    crate::state::lemma_preserved_trans(s0, s6, s7);
                    crate::state::lemma_preserved_trans(s0, s7, s8);
                    crate::state::lemma_preserved_trans(s0, s8, s9);
                    crate::state::lemma_preserved_trans(s0, s9, s10);
                    crate::state::lemma_preserved_trans(s0, s10, s11);
                    crate::state::lemma_preserved_trans(s0, s11, s12);
                    lemma_tuple_elem_bridge::<B>(s0, s1, elems, raw, 1);
                    lemma_tuple_elem_bridge::<C>(s0, s2, elems, raw, 2);
                    lemma_tuple_elem_bridge::<D>(s0, s3, elems, raw, 3);
                    lemma_tuple_elem_bridge::<E>(s0, s4, elems, raw, 4);
                    lemma_tuple_elem_bridge::<F>(s0, s5, elems, raw, 5);
                    lemma_tuple_elem_bridge::<G>(s0, s6, elems, raw, 6);
                    lemma_tuple_elem_bridge::<H>(s0, s7, elems, raw, 7);
                    lemma_tuple_elem_bridge::<I>(s0, s8, elems, raw, 8);
                    lemma_tuple_elem_bridge::<J>(s0, s9, elems, raw, 9);
                    lemma_tuple_elem_bridge::<K>(s0, s10, elems, raw, 10);
                    lemma_tuple_elem_bridge::<L>(s0, s11, elems, raw, 11);
                    lemma_tuple_elem_bridge::<M>(s0, s12, elems, raw, 12);
                }
                return Err(err);
            },
            None => {
                proof {
                    assert(false);
                }
                return Err(CastError::length(13, 0));
            },
        };
        proof {
            crate::state::lemma_preserved_trans(s0, s1, s2);
            crate::state::lemma_preserved_trans(s0, s2, s3);
            crate::state::lemma_preserved_trans(s0, s3, s4);
            crate::state::lemma_preserved_trans(s0, s4, s5);
            crate::state::lemma_preserved_trans(s0, s5, s6);
            crate::state::lemma_preserved_trans(s0, s6, s7);
            crate::state::lemma_preserved_trans(s0, s7, s8);
            crate::state::lemma_preserved_trans(s0, s8, s9);
            crate::state::lemma_preserved_trans(s0, s9, s10);
            crate::state::lemma_preserved_trans(s0, s10, s11);
            crate::state::lemma_preserved_trans(s0, s11, s12);
            lemma_tuple_elem_bridge::<B>(s0, s1, elems, raw, 1);
            lemma_tuple_elem_bridge::<C>(s0, s2, elems, raw, 2);
            lemma_tuple_elem_bridge::<D>(s0, s3, elems, raw, 3);
            lemma_tuple_elem_bridge::<E>(s0, s4, elems, raw, 4);
            lemma_tuple_elem_bridge::<F>(s0, s5, elems, raw, 5);
            lemma_tuple_elem_bridge::<G>(s0, s6, elems, raw, 6);
            lemma_tuple_elem_bridge::<H>(s0, s7, elems, raw, 7);
            lemma_tuple_elem_bridge::<I>(s0, s8, elems, raw, 8);
            lemma_tuple_elem_bridge::<J>(s0, s9, elems, raw, 9);
            lemma_tuple_elem_bridge::<K>(s0, s10, elems, raw, 10);
            lemma_tuple_elem_bridge::<L>(s0, s11, elems, raw, 11);
            lemma_tuple_elem_bridge::<M>(s0, s12, elems, raw, 12);
        }
        Ok((el0, el1, el2, el3, el4, el5, el6, el7, el8, el9, el10, el11, el12))
    }
}

} // verus!
