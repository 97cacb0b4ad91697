//! The single-use conversion context that extracts host values from
//! dynamic values, and the lazy iteration protocols over runtime arrays
//! and hashes.

use core::marker::PhantomData;

use vstd::prelude::*;

use crate::de::error::{CastError, ErrModel};
use crate::de::{entries_de, FromValue};
use crate::value::Datum;
use crate::state::{raw_valid, text_of, State, StateM};
use crate::symbol::FromSymbol;
use crate::value::{RawValue, Value};

verus! {

/// A runtime-bound, single-use conversion context wrapping one dynamic
/// value. Every extraction consumes it, so one dynamic value is decoded
/// under one type interpretation only; the session is handed to each
/// extraction call alongside it.
#[derive(Debug)]
pub struct Deserializer {
    pub(crate) value: Value,
}

impl View for Deserializer {
    type V = RawValue;

    closed spec fn view(&self) -> RawValue {
        self.value@
    }
}

impl Deserializer {
    /// Wrap one dynamic value for extraction.
    pub fn new(value: Value) -> (d: Deserializer)
        ensures
            d@ == value@,
    {
        Deserializer { value }
    }

    /// Succeeds only on the boolean tags.
    pub fn deserialize_bool(self) -> (r: Result<bool, CastError>)
        ensures
            match r {
                Ok(b) => self@ == RawValue::Bool(b),
                Err(e) => !(self@ is Bool) && e@ == ErrModel::UnexpectedType(
                    "value is not a boolean"@,
                ),
            },
    {
        match self.value.into_inner() {
            RawValue::Bool(b) => Ok(b),
            _ => Err(CastError::unexpected_type("value is not a boolean")),
        }
    }

    /// Succeeds only on the integer tag, at the runtime-native width.
    pub fn deserialize_integer(self) -> (r: Result<i64, CastError>)
        ensures
            match r {
                Ok(n) => self@ == RawValue::Int(n),
                Err(e) => !(self@ is Int) && e@ == ErrModel::UnexpectedType(
                    "value is not an integer"@,
                ),
            },
    {
        match self.value.into_inner() {
            RawValue::Int(n) => Ok(n),
            _ => Err(CastError::unexpected_type("value is not an integer")),
        }
    }

    /// Read host text out of a string, or out of a symbol taken as an
    /// implicit string view. The text comes back as an owned copy, so it
    /// outlives the source value without borrowing the session's memory.
    pub fn deserialize_str(self, st: &State) -> (r: Result<String, CastError>)
        requires
            st@.inv(),
            raw_valid(st@, self@),
        ensures
            match r {
                Ok(t) => text_of(st@, self@) == Some(t@),
                Err(e) => text_of(st@, self@) is None && e@ == ErrModel::UnexpectedType(
                    "value is not a string"@,
                ),
            },
    {
        match self.value.into_inner() {
            RawValue::Str(i) => Ok(st.str_content(i)),
            RawValue::Sym(i) => Ok(st.sym_name(i)),
            _ => Err(CastError::unexpected_type("value is not a string")),
        }
    }

    /// Requires a runtime string whose text is exactly one character.
    /// Unlike [`Self::deserialize_str`], a symbol is not accepted here:
    /// only the string tag extracts as a character.
    pub fn deserialize_char(self, st: &State) -> (r: Result<char, CastError>)
        requires
            st@.inv(),
            raw_valid(st@, self@),
        ensures
            match r {
                Ok(c) => {
                    &&& self@ matches RawValue::Str(i)
                    &&& st@.strings[i as int] == seq![c]
                },
                Err(e) => match self@ {
                    RawValue::Str(i) => {
                        let t = st@.strings[i as int];
                        &&& t.len() != 1
                        &&& (if t.len() == 0 {
                            e@ == ErrModel::UnexpectedType("string value is empty"@)
                        } else {
                            e@ == ErrModel::UnexpectedType("value contains multiple chars"@)
                        })
                    },
                    _ => e@ == ErrModel::UnexpectedType("value is not a string"@),
                },
            },
    {
        let i = match self.value.into_inner() {
            RawValue::Str(i) => i,
            _ => {
                return Err(CastError::unexpected_type("value is not a string"));
            },
        };
        let text = st.str_content(i);
        let n = text.as_str().unicode_len();
        if n == 0 {
            Err(CastError::unexpected_type("string value is empty"))
        } else if n > 1 {
            Err(CastError::unexpected_type("value contains multiple chars"))
        } else {
            let c = text.as_str().get_char(0);
            proof {
                assert(text@ =~= seq![c]);
            }
            Ok(c)
        }
    }

    /// Succeeds on the undefined tag and, by a liberality the marshaling
    /// layer inherits deliberately, on nil as well.
    pub fn deserialize_unit(self) -> (r: Result<(), CastError>)
        ensures
            match r {
                Ok(u) => self@ is Undef || self@ is Nil,
                Err(e) => !(self@ is Undef) && !(self@ is Nil) && e@ == ErrModel::UnexpectedType(
                    "value is not undefined"@,
                ),
            },
    {
        match self.value.into_inner() {
            RawValue::Undef => Ok(()),
            RawValue::Nil => Ok(()),
            _ => Err(CastError::unexpected_type("value is not undefined")),
        }
    }

    /// Nil becomes `None`; any other tag is re-wrapped and delegated to
    /// the inner type's extraction.
    pub fn deserialize_option<T: FromValue>(self, st: &mut State) -> (r: Result<
        Option<T>,
        CastError,
    >)
        requires
            old(st)@.inv(),
            raw_valid(old(st)@, self@),
        ensures
            final(st)@.inv(),
            old(st)@.preserved_in(final(st)@),
            self@ is Nil ==> (r matches Ok(x) && x is None),
            !(self@ is Nil) ==> match r {
                Ok(x) => x matches Some(inner) && T::de_spec(old(st)@, self@) == Ok::<
                    _,
                    ErrModel,
                >(inner.datum()),
                Err(e) => T::de_spec(old(st)@, self@) == Err::<crate::value::Datum, _>(e@),
            },
    {
        if self.value.is_nil() {
            Ok(None)
        } else {
            match T::from_value(self, st) {
                Ok(x) => Ok(Some(x)),
                Err(e) => Err(e),
            }
        }
    }

    /// Resolve a runtime symbol's interned name against the finite name
    /// set of the target type.
    pub fn deserialize_symbol<T: FromSymbol>(self, st: &State) -> (r: Result<T, CastError>)
        requires
            st@.inv(),
            raw_valid(st@, self@),
        ensures
            match r {
                Ok(x) => {
                    &&& self@ matches RawValue::Sym(i)
                    &&& T::resolve_spec(st@.symbols[i as int]) == Some(x.datum())
                },
                Err(e) => match self@ {
                    RawValue::Sym(i) => {
                        &&& T::resolve_spec(st@.symbols[i as int]) is None
                        &&& e@ == ErrModel::InvalidSymbol(st@.symbols[i as int])
                    },
                    _ => e@ == ErrModel::UnexpectedType("value is not a symbol"@),
                },
            },
    {
        match self.value.into_inner() {
            RawValue::Sym(i) => {
                let name = st.sym_name(i);
                match T::from_name(name.as_str()) {
                    Ok(x) => Ok(x),
                    Err(e) => Err(CastError::invalid_symbol(e)),
                }
            },
            _ => Err(CastError::unexpected_type("value is not a symbol")),
        }
    }

    /// Begin lazy element-wise extraction over a runtime array.
    pub fn deserialize_seq<T: FromValue>(self, st: &State) -> (it: SeqIter<T>)
        requires
            st@.inv(),
            raw_valid(st@, self@),
        ensures
            it.inner().wf(st@),
            it.inner().idx() == 0,
            self@ is Ary ==> it.inner().source() == Some(self@) && it.inner().len_spec()
                == st@.arrays[self@->Ary_0 as int].len(),
            !(self@ is Ary) ==> it.inner().source() is None && it.inner().len_spec() == 0,
    {
        SeqIter { sequence: SeqDeserializer::new(st, self.value), marker: PhantomData }
    }

    /// Begin index-driven extraction over a runtime array, for callers
    /// that know the arity they expect.
    pub fn deserialize_tuple(self, st: &State) -> (t: SeqDeserializer)
        requires
            st@.inv(),
            raw_valid(st@, self@),
        ensures
            t.wf(st@),
            t.idx() == 0,
            self@ is Ary ==> t.source() == Some(self@) && t.len_spec() == st@.arrays[self@->Ary_0
                as int].len(),
            !(self@ is Ary) ==> t.source() is None && t.len_spec() == 0,
    {
        SeqDeserializer::new(st, self.value)
    }

    /// Begin lock-step extraction over a runtime hash: the hash is
    /// decomposed into its key and value columns once, here.
    pub fn deserialize_map<K: FromValue, T: FromValue>(self, st: &mut State) -> (it: MapIter<
        K,
        T,
    >)
        requires
            old(st)@.inv(),
            raw_valid(old(st)@, self@),
        ensures
            final(st)@.inv(),
            old(st)@.preserved_in(final(st)@),
            it.wf(final(st)@),
            it.idx() == 0,
            self@ matches RawValue::Hash(h) ==> {
                &&& it.len_spec() == old(st)@.hashes[h as int].keys.len()
                &&& it.cols() matches Some((kv, vv)) && final(st)@.arrays[kv->Ary_0 as int] == old(
                    st,
                )@.hashes[h as int].keys && final(st)@.arrays[vv->Ary_0 as int] == old(
                    st,
                )@.hashes[h as int].vals
            },
            !(self@ is Hash) ==> it.cols() is None && it.len_spec() == 0,
    {
        MapIter::new(st, self.value)
    }

    /// Extract a whole mapping in one call: the insertion-ordered
    /// entries of a runtime hash, key and value of each converted in
    /// lock step. Any other tag yields the empty column, exactly as the
    /// lazy iteration would.
    pub fn deserialize_entries<K: FromValue, V: FromValue>(self, st: &mut State) -> (r: Result<
        Vec<(K, V)>,
        CastError,
    >)
        requires
            old(st)@.inv(),
            raw_valid(old(st)@, self@),
        ensures
            final(st)@.inv(),
            old(st)@.preserved_in(final(st)@),
            match r {
                Ok(out) => {
                    &&& (self@ matches RawValue::Hash(hi) ==> entries_de::<K, V>(
                        old(st)@,
                        old(st)@.hashes[hi as int].keys,
                        old(st)@.hashes[hi as int].vals,
                        0,
                    ) == Ok::<_, ErrModel>(
                        Seq::new(
                            out@.len(),
                            |j: int| (out@[j].0.datum(), out@[j].1.datum()),
                        ),
                    ))
                    &&& (!(self@ is Hash) ==> out@.len() == 0)
                },
                Err(e) => {
                    &&& self@ matches RawValue::Hash(hi)
                    &&& entries_de::<K, V>(
                        old(st)@,
                        old(st)@.hashes[hi as int].keys,
                        old(st)@.hashes[hi as int].vals,
                        0,
                    ) == Err::<Seq<(Datum, Datum)>, _>(e@)
                },
            },
    {
        let ghost s0 = st@;
        let ghost raw = self@;
        let mut it = self.deserialize_map::<K, V>(st);
        let n = it.len();
        let ghost cols = it.cols();
        let mut out: Vec<(K, V)> = Vec::new();
        for k in 0..n
            invariant
                s0 == old(st)@,
                raw == self@,
                st@.inv(),
                s0.inv(),
                s0.preserved_in(st@),
                it.wf(st@),
                it.len_spec() == n,
                it.idx() == k,
                it.cols() == cols,
                out@.len() == k,
                match cols {
                    Some((kv, vv)) => {
                        &&& raw matches RawValue::Hash(hi)
                        &&& (hi as int) < s0.hashes.len()
                        &&& n == s0.hashes[hi as int].keys.len()
                        &&& n == s0.hashes[hi as int].vals.len()
                        &&& kv is Ary
                        &&& vv is Ary
                        &&& st@.arrays[kv->Ary_0 as int] == s0.hashes[hi as int].keys
                        &&& st@.arrays[vv->Ary_0 as int] == s0.hashes[hi as int].vals
                    },
                    None => n == 0 && !(raw is Hash),
                },
                raw matches RawValue::Hash(hi) ==> ({
                    let kelems = s0.hashes[hi as int].keys;
                    let velems = s0.hashes[hi as int].vals;
                    let acc = Seq::new(
                        out@.len(),
                        |j: int| (out@[j].0.datum(), out@[j].1.datum()),
                    );
                    match entries_de::<K, V>(s0, kelems, velems, k as int) {
                        Ok(rest) => entries_de::<K, V>(s0, kelems, velems, 0) == Ok::<
                            _,
                            ErrModel,
                        >(acc + rest),
                        Err(e) => entries_de::<K, V>(s0, kelems, velems, 0) == Err::<
                            Seq<(Datum, Datum)>,
                            _,
                        >(e),
                    }
                }),
        {
            let ghost sk = st@;
            let ghost hi = raw->Hash_0;
            let ghost kelems = s0.hashes[hi as int].keys;
            let ghost velems = s0.hashes[hi as int].vals;
            let res = match it.next(st) {
                Some(res) => res,
                None => {
                    proof {
                        assert(false);
                    }
                    return Err(CastError::length(0, 0));
                },
            };
            proof {
                let pair = cols->0;
                let kv = pair.0;
                let vv = pair.1;
                assert(sk.arrays[kv->Ary_0 as int][k as int] == kelems[k as int]);
                assert(sk.arrays[vv->Ary_0 as int][k as int] == velems[k as int]);
                assert(raw_valid(s0, kelems[k as int]));
                assert(raw_valid(s0, velems[k as int]));
                K::lemma_de_spec_preserved(s0, sk, kelems[k as int]);
                V::lemma_de_spec_preserved(s0, sk, velems[k as int]);
                assert(st@.arrays[kv->Ary_0 as int] == sk.arrays[kv->Ary_0 as int]);
                assert(st@.arrays[vv->Ary_0 as int] == sk.arrays[vv->Ary_0 as int]);
                crate::state::lemma_preserved_trans(s0, sk, st@);
            }
            match res {
                Ok(entry) => {
                    let ghost out_old = out@;
                    let ghost kd = entry.0.datum();
                    let ghost vd = entry.1.datum();
                    proof {
                        assert(K::de_spec(s0, kelems[k as int]) == Ok::<_, ErrModel>(kd));
                        assert(V::de_spec(s0, velems[k as int]) == Ok::<_, ErrModel>(vd));
                    }
                    out.push(entry);
                    proof {
                        let acc_old = Seq::new(
                            out_old.len(),
                            |j: int| (out_old[j].0.datum(), out_old[j].1.datum()),
                        );
                        let acc_new = Seq::new(
                            out@.len(),
                            |j: int| (out@[j].0.datum(), out@[j].1.datum()),
                        );
                        assert(acc_new =~= acc_old.push((kd, vd)));
                        match entries_de::<K, V>(s0, kelems, velems, k + 1) {
                            Ok(ps) => {
                                assert(entries_de::<K, V>(s0, kelems, velems, k as int) == Ok::<
                                    _,
                                    ErrModel,
                                >(seq![(kd, vd)] + ps));
                                assert(acc_old + (seq![(kd, vd)] + ps) =~= acc_new + ps);
                            },
                            Err(e) => {
                                assert(entries_de::<K, V>(s0, kelems, velems, k as int) == Err::<
                                    Seq<(Datum, Datum)>,
                                    _,
                                >(e));
                            },
                        }
                    }
                },
                Err(e) => {
                    proof {
                        assert(entries_de::<K, V>(s0, kelems, velems, k as int) == Err::<
                            Seq<(Datum, Datum)>,
                            _,
                        >(e@));
                    }
                    return Err(e);
                },
            }
        }
        proof {
            if raw is Hash {
                let hi = raw->Hash_0;
                let kelems = s0.hashes[hi as int].keys;
                let velems = s0.hashes[hi as int].vals;
                let acc = Seq::new(out@.len(), |j: int| (out@[j].0.datum(), out@[j].1.datum()));
                assert(entries_de::<K, V>(s0, kelems, velems, n as int) == Ok::<_, ErrModel>(
                    Seq::<(Datum, Datum)>::empty(),
                ));
                assert(acc + Seq::<(Datum, Datum)>::empty() =~= acc);
            }
        }
        Ok(out)
    }
}

/// Index-driven extraction over a runtime array whose length was read
/// once at construction. On a non-array it is empty from the start, so a
/// tag mismatch surfaces as an arity of zero at the caller's length
/// check. A conversion failure leaves it exhausted for good.
#[derive(Debug)]
pub struct SeqDeserializer {
    value: Option<Value>,
    index: usize,
    len: usize,
}

impl SeqDeserializer {
    /// The array handle still being read, if no element has failed.
    pub closed spec fn source(self) -> Option<RawValue> {
        match self.value {
            Some(v) => Some(v@),
            None => None,
        }
    }

    /// The cursor: how many elements have been produced.
    pub closed spec fn idx(self) -> int {
        self.index as int
    }

    /// The element count captured at construction.
    pub closed spec fn len_spec(self) -> int {
        self.len as int
    }

    /// The handle is a valid array of the captured length, and the
    /// cursor has not run past it.
    pub open spec fn wf(self, s: StateM) -> bool {
        &&& 0 <= self.idx() <= self.len_spec()
        &&& match self.source() {
            Some(av) => {
                &&& av matches RawValue::Ary(i)
                &&& i < s.arrays.len()
                &&& s.arrays[i as int].len() == self.len_spec()
            },
            None => true,
        }
    }

    /// Capture the array and its length; any other tag yields the empty
    /// sequence.
    pub(crate) fn new(st: &State, value: Value) -> (r: SeqDeserializer)
        requires
            st@.inv(),
            raw_valid(st@, value@),
        ensures
            r.wf(st@),
            r.idx() == 0,
            value@ is Ary ==> r.source() == Some(value@) && r.len_spec() == st@.arrays[value@->Ary_0
                as int].len(),
            !(value@ is Ary) ==> r.source() is None && r.len_spec() == 0,
    {
        match value.get_ref() {
            RawValue::Ary(i) => {
                let len = st.ary_len(*i);
                SeqDeserializer { value: Some(value), index: 0, len }
            },
            _ => SeqDeserializer { value: None, index: 0, len: 0 },
        }
    }

    /// Extract the next element: read one index from the runtime array
    /// and convert it with a fresh context. On success the cursor
    /// advances; on failure the error is surfaced once and the iterator
    /// is left exhausted; past the captured length, nothing is produced.
    pub fn next_element<T: FromValue>(&mut self, st: &mut State) -> (r: Option<
        Result<T, CastError>,
    >)
        requires
            old(st)@.inv(),
            old(self).wf(old(st)@),
        ensures
            final(st)@.inv(),
            old(st)@.preserved_in(final(st)@),
            final(self).wf(final(st)@),
            final(self).len_spec() == old(self).len_spec(),
            old(self).source() is None || old(self).idx() >= old(self).len_spec() ==> r is None
                && *final(self) == *old(self) && final(st)@ == old(st)@,
            old(self).source() matches Some(av) ==> old(self).idx() < old(self).len_spec()
                ==> {
                let elem = old(st)@.arrays[av->Ary_0 as int][old(self).idx()];
                match r {
                    Some(res) => match res {
                        Ok(x) => {
                            &&& T::de_spec(old(st)@, elem) == Ok::<_, ErrModel>(x.datum())
                            &&& final(self).source() == Some(av)
                            &&& final(self).idx() == old(self).idx() + 1
                        },
                        Err(e) => {
                            &&& T::de_spec(old(st)@, elem) == Err::<crate::value::Datum, _>(e@)
                            &&& final(self).source() is None
                        },
                    },
                    None => false,
                }
            },
    {
        if self.index >= self.len {
            return None;
        }
        let value = match self.value.take() {
            Some(v) => v,
            None => {
                return None;
            },
        };
        let i = match value.get_ref() {
            RawValue::Ary(i) => *i,
            _ => {
                return None;
            },
        };
        let elem = st.ary_ref(i, self.index);
        let de = Deserializer::new(Value::from_raw(elem));
        match T::from_value(de, st) {
            Ok(x) => {
                self.value = Some(value);
                self.index = self.index + 1;
                Some(Ok(x))
            },
            Err(e) => Some(Err(e)),
        }
    }

    /// The element count captured at construction.
    pub fn len(&self) -> (n: usize)
        ensures
            n == self.len_spec(),
    {
        self.len
    }
}

/// Lazy element-wise extraction over a runtime array: an index-driven
/// cursor that converts one element per step and stops for good at the
/// first conversion failure.
#[derive(Debug)]
pub struct SeqIter<T> {
    pub(crate) sequence: SeqDeserializer,
    marker: PhantomData<T>,
}

impl<T: FromValue> SeqIter<T> {
    /// The underlying index-driven sequence reader.
    pub closed spec fn inner(self) -> SeqDeserializer {
        self.sequence
    }

    /// Extract the next element, or nothing past the snapshot length or
    /// after a failure.
    pub fn next(&mut self, st: &mut State) -> (r: Option<Result<T, CastError>>)
        requires
            old(st)@.inv(),
            old(self).inner().wf(old(st)@),
        ensures
            final(st)@.inv(),
            old(st)@.preserved_in(final(st)@),
            final(self).inner().wf(final(st)@),
            final(self).inner().len_spec() == old(self).inner().len_spec(),
            old(self).inner().source() is None || old(self).inner().idx() >= old(
                self,
            ).inner().len_spec() ==> r is None && final(self).inner() == old(self).inner()
                && final(st)@ == old(st)@,
            old(self).inner().source() matches Some(av) ==> old(self).inner().idx() < old(
                self,
            ).inner().len_spec() ==> {
                let elem = old(st)@.arrays[av->Ary_0 as int][old(self).inner().idx()];
                match r {
                    Some(res) => match res {
                        Ok(x) => {
                            &&& T::de_spec(old(st)@, elem) == Ok::<_, ErrModel>(x.datum())
                            &&& final(self).inner().source() == Some(av)
                            &&& final(self).inner().idx() == old(self).inner().idx() + 1
                        },
                        Err(e) => {
                            &&& T::de_spec(old(st)@, elem) == Err::<crate::value::Datum, _>(e@)
                            &&& final(self).inner().source() is None
                        },
                    },
                    None => false,
                }
            },
    {
        self.sequence.next_element::<T>(st)
    }

    /// The element count captured at construction.
    pub fn len(&self) -> (n: usize)
        ensures
            n == self.inner().len_spec(),
    {
        self.sequence.len()
    }
}

/// Lock-step extraction over the two columns of a runtime hash. The hash
/// was decomposed at construction into a key array and a value array;
/// the key and the value at one cursor index form one entry, and
/// iteration order is the hash's native insertion order.
#[derive(Debug)]
pub struct MapIter<K, V> {
    entries: Option<(Value, Value)>,
    index: usize,
    len: usize,
    marker: PhantomData<(K, V)>,
}

impl<K: FromValue, V: FromValue> MapIter<K, V> {
    /// The pair of column handles still being read.
    pub closed spec fn cols(self) -> Option<(RawValue, RawValue)> {
        match self.entries {
            Some((kv, vv)) => Some((kv@, vv@)),
            None => None,
        }
    }

    /// The cursor: how many entries have been produced.
    pub closed spec fn idx(self) -> int {
        self.index as int
    }

    /// The entry count captured at construction.
    pub closed spec fn len_spec(self) -> int {
        self.len as int
    }

    /// Both columns are valid arrays of the captured length, in lock
    /// step, and the cursor has not run past them.
    pub open spec fn wf(self, s: StateM) -> bool {
        &&& 0 <= self.idx() <= self.len_spec()
        &&& match self.cols() {
            Some((kv, vv)) => {
                &&& kv matches RawValue::Ary(ki)
                &&& ki < s.arrays.len()
                &&& s.arrays[ki as int].len() == self.len_spec()
                &&& vv matches RawValue::Ary(vi)
                &&& vi < s.arrays.len()
                &&& s.arrays[vi as int].len() == self.len_spec()
            },
            None => true,
        }
    }

    /// Decompose a hash into its two columns; any other tag yields the
    /// empty iteration.
    pub(crate) fn new(st: &mut State, value: Value) -> (r: MapIter<K, V>)
        requires
            old(st)@.inv(),
            raw_valid(old(st)@, value@),
        ensures
            final(st)@.inv(),
            old(st)@.preserved_in(final(st)@),
            r.wf(final(st)@),
            r.idx() == 0,
            value@ matches RawValue::Hash(h) ==> {
                &&& r.len_spec() == old(st)@.hashes[h as int].keys.len()
                &&& r.cols() matches Some((kv, vv)) && final(st)@.arrays[kv->Ary_0 as int] == old(
                    st,
                )@.hashes[h as int].keys && final(st)@.arrays[vv->Ary_0 as int] == old(
                    st,
                )@.hashes[h as int].vals
            },
            !(value@ is Hash) ==> r.cols() is None && r.len_spec() == 0,
    {
        match value.get_ref() {
            RawValue::Hash(h) => {
                let h = *h;
                let keys = st.hash_keys(h);
                let vals = st.hash_values(h);
                let ki = match keys.get_ref() {
                    RawValue::Ary(i) => *i,
                    _ => 0,
                };
                let len = st.ary_len(ki);
                MapIter { entries: Some((keys, vals)), index: 0, len, marker: PhantomData }
            },
            _ => MapIter { entries: None, index: 0, len: 0, marker: PhantomData },
        }
    }

    /// Extract the next entry: one indexed read and conversion from each
    /// column, the key first. A failure of either conversion surfaces
    /// once, as that conversion's error, and exhausts the iteration.
    pub fn next(&mut self, st: &mut State) -> (r: Option<Result<(K, V), CastError>>)
        requires
            old(st)@.inv(),
            old(self).wf(old(st)@),
        ensures
            final(st)@.inv(),
            old(st)@.preserved_in(final(st)@),
            final(self).wf(final(st)@),
            final(self).len_spec() == old(self).len_spec(),
            old(self).cols() is None || old(self).idx() >= old(self).len_spec() ==> r is None
                && *final(self) == *old(self) && final(st)@ == old(st)@,
            old(self).cols() matches Some((kv, vv)) ==> old(self).idx() < old(self).len_spec()
                ==> {
                let ke = old(st)@.arrays[kv->Ary_0 as int][old(self).idx()];
                let ve = old(st)@.arrays[vv->Ary_0 as int][old(self).idx()];
                match r {
                    Some(res) => match res {
                        Ok(entry) => {
                            &&& K::de_spec(old(st)@, ke) == Ok::<_, ErrModel>(entry.0.datum())
                            &&& V::de_spec(old(st)@, ve) == Ok::<_, ErrModel>(entry.1.datum())
                            &&& final(self).cols() == Some((kv, vv))
                            &&& final(self).idx() == old(self).idx() + 1
                        },
                        Err(e) => {
                            &&& final(self).cols() is None
                            &&& match K::de_spec(old(st)@, ke) {
                                Err(ke_err) => e@ == ke_err,
                                Ok(_) => V::de_spec(old(st)@, ve) == Err::<
                                    crate::value::Datum,
                                    _,
                                >(e@),
                            }
                        },
                    },
                    None => false,
                }
            },
    {
        if self.index >= self.len {
            return None;
        }
        let (keys, vals) = match self.entries.take() {
            Some(p) => p,
            None => {
                return None;
            },
        };
        let ki = match keys.get_ref() {
            RawValue::Ary(i) => *i,
            _ => {
                return None;
            },
        };
        let vi = match vals.get_ref() {
            RawValue::Ary(i) => *i,
            _ => {
                return None;
            },
        };
        let ghost s0 = st@;
        let ke = st.ary_ref(ki, self.index);
        let key_de = Deserializer::new(Value::from_raw(ke));
        let key = match K::from_value(key_de, st) {
            Ok(k) => k,
            Err(e) => {
                return Some(Err(e));
            },
        };
        let ghost s1 = st@;
        let ve = st.ary_ref(vi, self.index);
        let val_de = Deserializer::new(Value::from_raw(ve));
        let val = match V::from_value(val_de, st) {
            Ok(v) => v,
            Err(e) => {
                proof {
                    V::lemma_de_spec_preserved(s0, s1, ve);
                }
                return Some(Err(e));
            },
        };
        proof {
            V::lemma_de_spec_preserved(s0, s1, ve);
            crate::state::lemma_preserved_trans(s0, s1, st@);
        }
        self.entries = Some((keys, vals));
        self.index = self.index + 1;
        Some(Ok((key, val)))
    }

    /// The entry count captured at construction.
    pub fn len(&self) -> (n: usize)
        ensures
            n == self.len_spec(),
    {
        self.len
    }
}

} // verus!
