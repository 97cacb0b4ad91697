//! The stateless conversion context that turns host values into
//! runtime-owned dynamic values.

use vstd::prelude::*;

use crate::state::{
    denotes, hash_empty, hash_fold, hash_set_spec, key_eql_spec, key_index_spec,
    lemma_distinct_data_not_key_eql, lemma_hash_fold_snoc, lemma_preserved_trans,
    lemma_raw_valid_lens, lemma_seq_denotes_preserved, raw_valid, HashM, State, StateM,
};
use crate::symbol::ToSymbol;
use crate::value::{Datum, RawValue, Value};

use super::ToValue;

verus! {

/// The datums of a column of host values.
pub open spec fn data_of<T: ToValue>(items: Seq<T>) -> Seq<Datum> {
    Seq::new(items.len(), |i: int| items[i].datum())
}

/// The datums of the key column of a column of host entries.
pub open spec fn key_data_of<K: ToValue, V: ToValue>(entries: Seq<(K, V)>) -> Seq<Datum> {
    Seq::new(entries.len(), |i: int| entries[i].0.datum())
}

/// The datums of the value column of a column of host entries.
pub open spec fn val_data_of<K: ToValue, V: ToValue>(entries: Seq<(K, V)>) -> Seq<Datum> {
    Seq::new(entries.len(), |i: int| entries[i].1.datum())
}

/// No two entries of the column stand for the same datum.
pub open spec fn pairwise_distinct(ds: Seq<Datum>) -> bool {
    forall|i: int, j: int| 0 <= i < ds.len() && 0 <= j < ds.len() && i != j ==> ds[i] != ds[j]
}

/// The hash holds exactly what storing, in order, one valid handle per
/// key and value datum leaves behind: the unconditional content of a
/// serialized mapping, duplicate keys included.
pub open spec fn hash_built(s: StateM, hm: HashM, kds: Seq<Datum>, vds: Seq<Datum>) -> bool {
    exists|kraws: Seq<RawValue>, vraws: Seq<RawValue>|
        {
            &&& kraws.len() == kds.len()
            &&& vraws.len() == vds.len()
            &&& (forall|j: int|
                0 <= j < kds.len() ==> raw_valid(s, #[trigger] kraws[j]) && denotes(
                    s,
                    kraws[j],
                    kds[j],
                ))
            &&& (forall|j: int|
                0 <= j < vds.len() ==> raw_valid(s, #[trigger] vraws[j]) && denotes(
                    s,
                    vraws[j],
                    vds[j],
                ))
            &&& hm == hash_fold(s, hash_empty(), kraws, vraws)
        }
}

/// Relies on char's `ToString`: the one-character string.
#[verifier::external_body]
pub(crate) fn char_text(c: char) -> (r: String)
    ensures
        r@ == seq![c],
{
    c.to_string()
}

/// A stateless conversion context bound to a runtime session; it turns
/// host values into dynamic values owned by that session. Many may
/// coexist, since conversion is read-only with respect to host data.
#[derive(Clone, Copy, Debug)]
pub struct Serializer;

impl Serializer {
    /// A fresh conversion context.
    pub(crate) fn new() -> Serializer {
        Serializer
    }

    /// The boolean immediates.
    pub fn serialize_bool(self, val: bool) -> (v: Value)
        ensures
            v@ == RawValue::Bool(val),
    {
        Value::from_raw(RawValue::Bool(val))
    }

    /// The runtime-native integer immediate.
    pub fn serialize_integer(self, val: i64) -> (v: Value)
        ensures
            v@ == RawValue::Int(val),
    {
        Value::from_raw(RawValue::Int(val))
    }

    /// The nil immediate: the absence that `Option::None` maps to.
    pub fn serialize_nil(self) -> (v: Value)
        ensures
            v@ == RawValue::Nil,
    {
        Value::from_raw(RawValue::Nil)
    }

    /// The undefined immediate: what the unit host type maps to.
    pub fn serialize_undef(self) -> (v: Value)
        ensures
            v@ == RawValue::Undef,
    {
        Value::from_raw(RawValue::Undef)
    }

    /// Copy host text into a newly allocated runtime string.
    pub fn serialize_string(self, st: &mut State, val: &str) -> (v: Value)
        requires
            old(st)@.inv(),
        ensures
            final(st)@.inv(),
            old(st)@.preserved_in(final(st)@),
            final(st)@.symbols == old(st)@.symbols,
            final(st)@.strings == old(st)@.strings.push(val@),
            final(st)@.arrays == old(st)@.arrays,
            final(st)@.hashes == old(st)@.hashes,
            final(st)@.globals == old(st)@.globals,
            raw_valid(final(st)@, v@),
            denotes(final(st)@, v@, Datum::Str(val@)),
    {
        st.str_new(val)
    }

    /// A character becomes a one-character runtime string.
    pub fn serialize_char(self, st: &mut State, val: char) -> (v: Value)
        requires
            old(st)@.inv(),
        ensures
            final(st)@.inv(),
            old(st)@.preserved_in(final(st)@),
            final(st)@.symbols == old(st)@.symbols,
            final(st)@.strings == old(st)@.strings.push(seq![val]),
            final(st)@.arrays == old(st)@.arrays,
            final(st)@.hashes == old(st)@.hashes,
            final(st)@.globals == old(st)@.globals,
            raw_valid(final(st)@, v@),
            denotes(final(st)@, v@, Datum::Str(seq![val])),
    {
        let text = char_text(val);
        st.str_new(text.as_str())
    }

    /// Intern the symbol's text with the runtime and wrap the id.
    pub fn serialize_symbol<T: ToSymbol + ?Sized>(self, st: &mut State, sym: &T) -> (v: Value)
        requires
            old(st)@.inv(),
        ensures
            final(st)@.inv(),
            old(st)@.preserved_in(final(st)@),
            final(st)@.strings == old(st)@.strings,
            final(st)@.arrays == old(st)@.arrays,
            final(st)@.hashes == old(st)@.hashes,
            final(st)@.globals == old(st)@.globals,
            old(st)@.symbols.contains(sym.name_spec()) ==> final(st)@.symbols == old(
                st,
            )@.symbols,
            !old(st)@.symbols.contains(sym.name_spec()) ==> final(st)@.symbols == old(
                st,
            )@.symbols.push(sym.name_spec()),
            raw_valid(final(st)@, v@),
            denotes(final(st)@, v@, Datum::Sym(sym.name_spec())),
    {
        let id = st.intern(sym.as_str());
        Value::from_raw(RawValue::Sym(id))
    }

    /// Build a homogeneous runtime array by converting each element and
    /// collecting into one runtime allocation.
    pub fn serialize_array<T: ToValue>(self, st: &mut State, val: &Vec<T>) -> (v: Value)
        requires
            old(st)@.inv(),
        ensures
            final(st)@.inv(),
            old(st)@.preserved_in(final(st)@),
            final(st)@.globals == old(st)@.globals,
            raw_valid(final(st)@, v@),
            denotes(final(st)@, v@, Datum::Ary(data_of(val@))),
    {
        self.serialize_array_slice(st, val.as_slice())
    }

    /// Build a homogeneous runtime array from a borrowed slice, in the
    /// same way.
    pub fn serialize_array_slice<T: ToValue>(self, st: &mut State, val: &[T]) -> (v: Value)
        requires
            old(st)@.inv(),
        ensures
            final(st)@.inv(),
            old(st)@.preserved_in(final(st)@),
            final(st)@.globals == old(st)@.globals,
            raw_valid(final(st)@, v@),
            denotes(final(st)@, v@, Datum::Ary(data_of(val@))),
    {
        let ghost ds = data_of(val@);
        let mut raws: Vec<RawValue> = Vec::new();
        let n = val.len();
        for k in 0..n
            invariant
                n == val@.len(),
                ds == data_of(val@),
                st@.inv(),
                old(st)@.preserved_in(st@),
                st@.globals == old(st)@.globals,
                raws@.len() == k,
                forall|j: int| 0 <= j < k ==> raw_valid(st@, #[trigger] raws@[j]),
                forall|j: int| 0 <= j < k ==> denotes(st@, #[trigger] raws@[j], ds[j]),
        {
            let ghost pre = st@;
            let v = val[k].to_value(Serializer, st);
            proof {
                lemma_preserved_trans(old(st)@, pre, st@);
                lemma_seq_denotes_preserved(pre, st@, raws@, ds.take(k as int));
                assert forall|j: int| 0 <= j < k implies denotes(st@, #[trigger] raws@[j], ds[j])
                    && raw_valid(st@, raws@[j]) by {
                    assert(ds.take(k as int)[j] == ds[j]);
                }
                assert(ds[k as int] == val@[k as int].datum());
            }
            raws.push(v.into_inner());
        }
        let ghost pre = st@;
        let ghost raws_view = raws@;
        let v = st.ary_new_from_values(raws);
        proof {
            lemma_preserved_trans(old(st)@, pre, st@);
            lemma_seq_denotes_preserved(pre, st@, raws_view, ds);
            let i = st@.arrays.len() - 1;
            assert(st@.arrays[i] == raws_view);
            assert forall|j: int| 0 <= j < ds.len() implies denotes(
                st@,
                st@.arrays[i][j],
                #[trigger] ds[j],
            ) by {
                assert(st@.arrays[i][j] == raws_view[j]);
                assert(denotes(st@, raws_view[j], ds[j]));
            }
            assert(denotes(st@, v@, Datum::Ary(ds)));
        }
        v
    }

    /// Begin a heterogeneous sequence: the builder that fixed-arity
    /// tuples are marshaled through.
    pub fn serialize_array_hetero(self) -> (b: ArraySerializer)
        ensures
            b.data() == Seq::<Datum>::empty(),
            forall|s: StateM| #[trigger] b.wf(s),
    {
        ArraySerializer::new()
    }

    /// Build a runtime hash from host entries, converting key and value
    /// of each entry in order; insertion order is preserved as provided.
    ///
    /// The result is, unconditionally, the empty hash with every entry
    /// stored in order — so a repeated key keeps its first position and
    /// its last value, exactly as `hash_set_spec` says. When the keys
    /// stand for pairwise distinct datums no storing collides, and the
    /// result then denotes the entries verbatim.
    pub fn serialize_hash<K: ToValue, V: ToValue>(
        self,
        st: &mut State,
        entries: &Vec<(K, V)>,
    ) -> (v: Value)
        requires
            old(st)@.inv(),
        ensures
            final(st)@.inv(),
            old(st)@.preserved_in(final(st)@),
            final(st)@.globals == old(st)@.globals,
            raw_valid(final(st)@, v@),
            v@ is Hash,
            hash_built(
                final(st)@,
                final(st)@.hashes[v@->Hash_0 as int],
                key_data_of(entries@),
                val_data_of(entries@),
            ),
            pairwise_distinct(key_data_of(entries@)) ==> denotes(
                final(st)@,
                v@,
                Datum::Hash(key_data_of(entries@), val_data_of(entries@)),
            ),
    {
        let ghost kds = key_data_of(entries@);
        let ghost vds = val_data_of(entries@);
        let mut kraws: Vec<RawValue> = Vec::new();
        let mut vraws: Vec<RawValue> = Vec::new();
        let n = entries.len();
        for k in 0..n
            invariant
                n == entries@.len(),
                kds == key_data_of(entries@),
                vds == val_data_of(entries@),
                st@.inv(),
                old(st)@.preserved_in(st@),
                st@.globals == old(st)@.globals,
                kraws@.len() == k,
                vraws@.len() == k,
                forall|j: int| 0 <= j < k ==> raw_valid(st@, #[trigger] kraws@[j]),
                forall|j: int| 0 <= j < k ==> denotes(st@, #[trigger] kraws@[j], kds[j]),
                forall|j: int| 0 <= j < k ==> raw_valid(st@, #[trigger] vraws@[j]),
                forall|j: int| 0 <= j < k ==> denotes(st@, #[trigger] vraws@[j], vds[j]),
        {
            let ghost pre1 = st@;
            let kv = entries[k].0.to_value(Serializer, st);
            let ghost pre2 = st@;
            let vv = entries[k].1.to_value(Serializer, st);
            proof {
                lemma_preserved_trans(pre1, pre2, st@);
                lemma_preserved_trans(old(st)@, pre1, st@);
                lemma_seq_denotes_preserved(pre1, st@, kraws@, kds.take(k as int));
                lemma_seq_denotes_preserved(pre1, st@, vraws@, vds.take(k as int));
                crate::state::lemma_denotes_preserved(pre2, st@, kv@, entries@[k as int].0.datum());
                assert forall|j: int| 0 <= j < k implies denotes(st@, #[trigger] kraws@[j], kds[j])
                    && raw_valid(st@, kraws@[j]) by {
                    assert(kds.take(k as int)[j] == kds[j]);
                }
                assert forall|j: int| 0 <= j < k implies denotes(st@, #[trigger] vraws@[j], vds[j])
                    && raw_valid(st@, vraws@[j]) by {
                    assert(vds.take(k as int)[j] == vds[j]);
                }
                assert(kds[k as int] == entries@[k as int].0.datum());
                assert(vds[k as int] == entries@[k as int].1.datum());
            }
            kraws.push(kv.into_inner());
            vraws.push(vv.into_inner());
        }
        let ghost mid = st@;
        let hv = st.hash_new();
        let h = match hv.into_inner() {
            RawValue::Hash(i) => i,
            _ => 0,
        };
        let ghost base = st@;
        proof {
            lemma_seq_denotes_preserved(mid, base, kraws@, kds);
            lemma_seq_denotes_preserved(mid, base, vraws@, vds);
            assert(base.hashes[h as int] == hash_empty());
        }
        for k in 0..n
            invariant
                n == entries@.len(),
                n == kraws@.len(),
                n == vraws@.len(),
                kds == key_data_of(entries@),
                vds == val_data_of(entries@),
                kds.len() == n,
                vds.len() == n,
                st@.inv(),
                mid.globals == old(st)@.globals,
                base.globals == old(st)@.globals,
                h < st@.hashes.len(),
                h == base.hashes.len() - 1,
                st@.symbols == base.symbols,
                st@.strings == base.strings,
                st@.arrays == base.arrays,
                st@.globals == base.globals,
                st@.hashes.len() == base.hashes.len(),
                base.hashes[h as int] == hash_empty(),
                st@.hashes[h as int] == hash_fold(
                    base,
                    hash_empty(),
                    kraws@.take(k as int),
                    vraws@.take(k as int),
                ),
                forall|i: int| 0 <= i < base.hashes.len() && i != h ==> st@.hashes[i]
                    == base.hashes[i],
                forall|j: int| 0 <= j < n ==> raw_valid(base, #[trigger] kraws@[j]),
                forall|j: int| 0 <= j < n ==> denotes(base, #[trigger] kraws@[j], kds[j]),
                forall|j: int| 0 <= j < n ==> raw_valid(base, #[trigger] vraws@[j]),
                forall|j: int| 0 <= j < n ==> denotes(base, #[trigger] vraws@[j], vds[j]),
                pairwise_distinct(kds) ==> st@.hashes[h as int].keys == kraws@.take(k as int)
                    && st@.hashes[h as int].vals == vraws@.take(k as int),
        {
            let ghost pre = st@;
            proof {
                lemma_raw_valid_lens(base, pre, kraws@[k as int]);
                lemma_raw_valid_lens(base, pre, vraws@[k as int]);
            }
            st.hash_set(h, kraws[k], vraws[k]);
            proof {
                assert forall|i: int| 0 <= i < base.hashes.len() && i != h implies st@.hashes[i]
                    == base.hashes[i] by {
                    assert(st@.hashes[i] == pre.hashes[i]);
                }
                let hm = pre.hashes[h as int];
                assert(st@.hashes[h as int] == hash_set_spec(
                    pre,
                    hm,
                    kraws@[k as int],
                    vraws@[k as int],
                ));
                crate::state::lemma_key_index_spec_same_strings(
                    pre,
                    base,
                    hm.keys,
                    kraws@[k as int],
                );
                assert(hash_set_spec(pre, hm, kraws@[k as int], vraws@[k as int]) == hash_set_spec(
                    base,
                    hm,
                    kraws@[k as int],
                    vraws@[k as int],
                ));
                lemma_hash_fold_snoc(
                    base,
                    hash_empty(),
                    kraws@.take(k as int),
                    vraws@.take(k as int),
                    kraws@[k as int],
                    vraws@[k as int],
                );
                assert(kraws@.take(k + 1) =~= kraws@.take(k as int).push(kraws@[k as int]));
                assert(vraws@.take(k + 1) =~= vraws@.take(k as int).push(vraws@[k as int]));
                assert(st@.hashes[h as int] == hash_fold(
                    base,
                    hash_empty(),
                    kraws@.take(k + 1),
                    vraws@.take(k + 1),
                ));
                if pairwise_distinct(kds) {
                    assert(hm.keys == kraws@.take(k as int));
                    assert forall|j: int| 0 <= j < hm.keys.len() implies !key_eql_spec(
                        base,
                        #[trigger] hm.keys[j],
                        kraws@[k as int],
                    ) by {
                        assert(hm.keys[j] == kraws@.take(k as int)[j]);
                        assert(hm.keys[j] == kraws@[j]);
                        lemma_distinct_data_not_key_eql(
                            base,
                            kraws@[j],
                            kraws@[k as int],
                            kds[j],
                            kds[k as int],
                        );
                    }
                    crate::state::lemma_key_index_spec_props(base, hm.keys, kraws@[k as int]);
                    assert(key_index_spec(base, hm.keys, kraws@[k as int]) < 0);
                    assert(st@.hashes[h as int].keys =~= kraws@.take(k + 1));
                    assert(st@.hashes[h as int].vals =~= vraws@.take(k + 1));
                }
            }
        }
        proof {
            let s2 = st@;
            assert forall|i: int| 0 <= i < mid.hashes.len() implies s2.hashes[i] == mid.hashes[i] by {
                assert(i != h);
                assert(s2.hashes[i] == base.hashes[i]);
                assert(base.hashes[i] == mid.hashes[i]);
            }
            assert(mid.preserved_in(s2));
            lemma_preserved_trans(old(st)@, mid, s2);
            lemma_seq_denotes_preserved(mid, s2, kraws@, kds);
            lemma_seq_denotes_preserved(mid, s2, vraws@, vds);
            assert(kraws@.take(n as int) =~= kraws@);
            assert(vraws@.take(n as int) =~= vraws@);
            crate::state::lemma_hash_fold_same_strings(base, s2, hash_empty(), kraws@, vraws@);
            assert(s2.hashes[h as int] == hash_fold(s2, hash_empty(), kraws@, vraws@));
            assert(hash_built(s2, s2.hashes[h as int], kds, vds)) by {
                assert(forall|j: int|
                    0 <= j < kds.len() ==> raw_valid(s2, #[trigger] kraws@[j]) && denotes(
                        s2,
                        kraws@[j],
                        kds[j],
                    ));
                assert(forall|j: int|
                    0 <= j < vds.len() ==> raw_valid(s2, #[trigger] vraws@[j]) && denotes(
                        s2,
                        vraws@[j],
                        vds[j],
                    ));
            }
            if pairwise_distinct(kds) {
                assert(s2.hashes[h as int].keys =~= kraws@);
                assert(s2.hashes[h as int].vals =~= vraws@);
                assert forall|j: int| 0 <= j < kds.len() implies denotes(
                    s2,
                    s2.hashes[h as int].keys[j],
                    #[trigger] kds[j],
                ) by {
                    assert(s2.hashes[h as int].keys[j] == kraws@[j]);
                }
                assert forall|j: int| 0 <= j < vds.len() implies denotes(
                    s2,
                    s2.hashes[h as int].vals[j],
                    #[trigger] vds[j],
                ) by {
                    assert(s2.hashes[h as int].vals[j] == vraws@[j]);
                }
                assert(denotes(s2, hv@, Datum::Hash(kds, vds)));
            }
        }
        hv
    }
}

/// The heterogeneous-sequence builder behind tuple serialization: each
/// call converts one element, and `finish` yields the completed runtime
/// array. The uniform single-element append cannot be driven by one
/// polymorphic call over heterogeneous element types, so each arity
/// chains one `next_element` call per element.
pub struct ArraySerializer {
    elems: Vec<RawValue>,
    data: Ghost<Seq<Datum>>,
}

impl ArraySerializer {
    /// The datums of the elements converted so far.
    pub closed spec fn data(self) -> Seq<Datum> {
        self.data@
    }

    /// The gathered element handles are valid and stand for `data()` in
    /// the given session.
    pub closed spec fn wf(self, s: StateM) -> bool {
        &&& self.data@.len() == self.elems@.len()
        &&& forall|j: int| 0 <= j < self.elems@.len() ==> raw_valid(s, #[trigger] self.elems@[j])
        &&& forall|j: int|
            0 <= j < self.elems@.len() ==> denotes(s, #[trigger] self.elems@[j], self.data@[j])
    }

    /// An empty builder.
    pub(crate) fn new() -> (b: ArraySerializer)
        ensures
            b.data() == Seq::<Datum>::empty(),
            forall|s: StateM| #[trigger] b.wf(s),
    {
        ArraySerializer { elems: Vec::new(), data: Ghost(Seq::empty()) }
    }

    /// Convert one more element and append it to the sequence.
    pub fn next_element<T: ToValue>(self, st: &mut State, elem: &T) -> (b: ArraySerializer)
        requires
            old(st)@.inv(),
            self.wf(old(st)@),
        ensures
            final(st)@.inv(),
            old(st)@.preserved_in(final(st)@),
            final(st)@.globals == old(st)@.globals,
            b.wf(final(st)@),
            b.data() == self.data().push(elem.datum()),
    {
        let ArraySerializer { mut elems, data } = self;
        let v = elem.to_value(Serializer, st);
        proof {
            lemma_seq_denotes_preserved(old(st)@, st@, elems@, data@);
        }
        elems.push(v.into_inner());
        ArraySerializer { elems, data: Ghost(data@.push(elem.datum())) }
    }

    /// Yield the completed dynamic value.
    pub fn finish(self, st: &mut State) -> (v: Value)
        requires
            old(st)@.inv(),
            self.wf(old(st)@),
        ensures
            final(st)@.inv(),
            old(st)@.preserved_in(final(st)@),
            final(st)@.globals == old(st)@.globals,
            raw_valid(final(st)@, v@),
            denotes(final(st)@, v@, Datum::Ary(self.data())),
    {
        let ghost elems_view = self.elems@;
        let ghost ds = self.data@;
        let v = st.ary_new_from_values(self.elems);
        proof {
            lemma_seq_denotes_preserved(old(st)@, st@, elems_view, ds);
            let i = st@.arrays.len() - 1;
            assert(st@.arrays[i] == elems_view);
            assert forall|j: int| 0 <= j < ds.len() implies denotes(
                st@,
                st@.arrays[i][j],
                #[trigger] ds[j],
            ) by {
                assert(st@.arrays[i][j] == elems_view[j]);
                assert(denotes(st@, elems_view[j], ds[j]));
            }
            assert(denotes(st@, v@, Datum::Ary(ds)));
        }
        v
    }
}

} // verus!
