//! The runtime session: an arena-backed store of every dynamic value the
//! marshaling layer produces or consumes, together with the primitive
//! operation set the serializer and deserializer are written against.

use vstd::prelude::*;

use crate::value::{Datum, RawValue, Value};

verus! {

/// Abstract contents of one runtime hash: two parallel columns in
/// insertion order. The key and the value at one index form one entry.
pub struct HashM {
    pub keys: Seq<RawValue>,
    pub vals: Seq<RawValue>,
}

/// Abstract contents of a whole runtime session.
pub struct StateM {
    pub symbols: Seq<Seq<char>>,
    pub strings: Seq<Seq<char>>,
    pub arrays: Seq<Seq<RawValue>>,
    pub hashes: Seq<HashM>,
    pub globals: Seq<(Seq<char>, RawValue)>,
}

/// A handle is valid when every arena index it carries is in range.
pub open spec fn raw_valid(s: StateM, v: RawValue) -> bool {
    match v {
        RawValue::Str(i) => i < s.strings.len(),
        RawValue::Sym(i) => i < s.symbols.len(),
        RawValue::Ary(i) => i < s.arrays.len(),
        RawValue::Hash(i) => i < s.hashes.len(),
        _ => true,
    }
}

/// One sequence preserved as a prefix of another, entry for entry.
pub open spec fn prefix_preserved<A>(a: Seq<A>, b: Seq<A>) -> bool {
    a.len() <= b.len() && forall|i: int| 0 <= i < a.len() ==> b[i] == a[i]
}

impl StateM {
    /// Session well-formedness: interned names are pairwise distinct, the
    /// two columns of every hash run in lock step, global names are
    /// pairwise distinct, and every handle stored anywhere is valid.
    pub open spec fn inv(self) -> bool {
        &&& forall|i: int, j: int|
            0 <= i < self.symbols.len() && 0 <= j < self.symbols.len() && i != j
                ==> self.symbols[i] != self.symbols[j]
        &&& forall|i: int, j: int|
            0 <= i < self.arrays.len() && 0 <= j < self.arrays[i].len()
                ==> raw_valid(self, #[trigger] self.arrays[i][j])
        &&& forall|i: int| 0 <= i < self.hashes.len()
                ==> (#[trigger] self.hashes[i]).keys.len() == self.hashes[i].vals.len()
        &&& forall|i: int, j: int|
            0 <= i < self.hashes.len() && 0 <= j < self.hashes[i].keys.len()
                ==> raw_valid(self, #[trigger] self.hashes[i].keys[j])
        &&& forall|i: int, j: int|
            0 <= i < self.hashes.len() && 0 <= j < self.hashes[i].vals.len()
                ==> raw_valid(self, #[trigger] self.hashes[i].vals[j])
        &&& forall|i: int, j: int|
            0 <= i < self.globals.len() && 0 <= j < self.globals.len() && i != j
                ==> self.globals[i].0 != self.globals[j].0
        &&& forall|i: int| 0 <= i < self.globals.len()
                ==> raw_valid(self, (#[trigger] self.globals[i]).1)
    }

    /// Everything that existed in `self` still exists, unchanged, in `s2`;
    /// new arena entries may have appeared after it. Global variables are
    /// deliberately not constrained: they may be rebound at any time.
    pub open spec fn preserved_in(self, s2: StateM) -> bool {
        &&& prefix_preserved(self.symbols, s2.symbols)
        &&& prefix_preserved(self.strings, s2.strings)
        &&& prefix_preserved(self.arrays, s2.arrays)
        &&& prefix_preserved(self.hashes, s2.hashes)
    }
}

/// The handle `v`, chased through the arenas of session `s`, stands for
/// exactly the abstract datum `d`.
pub open spec fn denotes(s: StateM, v: RawValue, d: Datum) -> bool
    decreases d,
{
    match d {
        Datum::Nil => v == RawValue::Nil,
        Datum::Undef => v == RawValue::Undef,
        Datum::Bool(b) => v == RawValue::Bool(b),
        Datum::Int(n) => v == RawValue::Int(n),
        Datum::Str(t) => {
            &&& v matches RawValue::Str(i)
            &&& i < s.strings.len()
            &&& s.strings[i as int] == t
        },
        Datum::Sym(t) => {
            &&& v matches RawValue::Sym(i)
            &&& i < s.symbols.len()
            &&& s.symbols[i as int] == t
        },
        Datum::Ary(ds) => {
            &&& v matches RawValue::Ary(i)
            &&& i < s.arrays.len()
            &&& s.arrays[i as int].len() == ds.len()
            &&& forall|j: int| 0 <= j < ds.len() ==> denotes(s, s.arrays[i as int][j], #[trigger] ds[j])
        },
        Datum::Hash(ks, vs) => {
            &&& v matches RawValue::Hash(i)
            &&& i < s.hashes.len()
            &&& s.hashes[i as int].keys.len() == ks.len()
            &&& s.hashes[i as int].vals.len() == vs.len()
            &&& forall|j: int| 0 <= j < ks.len() ==> denotes(s, s.hashes[i as int].keys[j], #[trigger] ks[j])
            &&& forall|j: int| 0 <= j < vs.len() ==> denotes(s, s.hashes[i as int].vals[j], #[trigger] vs[j])
        },
    }
}

/// The key comparison the runtime hash applies when an entry is stored:
/// strings compare by their text, every other kind by its immediate
/// payload — for containers, that is handle identity.
pub open spec fn key_eql_spec(s: StateM, a: RawValue, b: RawValue) -> bool {
    match (a, b) {
        (RawValue::Str(i), RawValue::Str(j)) => {
            &&& i < s.strings.len()
            &&& j < s.strings.len()
            &&& s.strings[i as int] == s.strings[j as int]
        },
        _ => a == b,
    }
}

/// The index of the first stored key that the runtime's key equality
/// identifies with `k`, or a negative result when no key matches.
pub open spec fn key_index_spec(s: StateM, keys: Seq<RawValue>, k: RawValue) -> int
    decreases keys.len(),
{
    if keys.len() == 0 {
        -1
    } else if key_eql_spec(s, keys[0], k) {
        0
    } else {
        let r = key_index_spec(s, keys.drop_first(), k);
        if r < 0 {
            -1
        } else {
            r + 1
        }
    }
}

/// An empty runtime hash.
pub open spec fn hash_empty() -> HashM {
    HashM { keys: Seq::empty(), vals: Seq::empty() }
}

/// One entry stored into a hash: an already present key (under the
/// runtime's key equality) has its value replaced in place at its first
/// occurrence; a new key is appended with its value.
pub open spec fn hash_set_spec(s: StateM, hm: HashM, k: RawValue, v: RawValue) -> HashM {
    let j = key_index_spec(s, hm.keys, k);
    if j >= 0 {
        HashM { keys: hm.keys, vals: hm.vals.update(j, v) }
    } else {
        HashM { keys: hm.keys.push(k), vals: hm.vals.push(v) }
    }
}

/// A whole column of entries stored in order, one `hash_set_spec` each.
pub open spec fn hash_fold(s: StateM, hm: HashM, keys: Seq<RawValue>, vals: Seq<RawValue>) -> HashM
    decreases keys.len(),
{
    if keys.len() == 0 || vals.len() == 0 {
        hm
    } else {
        hash_fold(s, hash_set_spec(s, hm, keys[0], vals[0]), keys.drop_first(), vals.drop_first())
    }
}

/// What the first-match index means: it lands on a matching key with no
/// earlier match, and is negative exactly when no key matches.
pub proof fn lemma_key_index_spec_props(s: StateM, keys: Seq<RawValue>, k: RawValue)
    ensures
        key_index_spec(s, keys, k) >= 0 <==> exists|j: int|
            0 <= j < keys.len() && key_eql_spec(s, #[trigger] keys[j], k),
        key_index_spec(s, keys, k) >= 0 ==> {
            let ki = key_index_spec(s, keys, k);
            &&& ki < keys.len()
            &&& key_eql_spec(s, keys[ki], k)
            &&& forall|j: int| 0 <= j < ki ==> !key_eql_spec(s, #[trigger] keys[j], k)
        },
    decreases keys.len(),
{
    if keys.len() == 0 {
    } else if key_eql_spec(s, keys[0], k) {
    } else {
        lemma_key_index_spec_props(s, keys.drop_first(), k);
        let rest = keys.drop_first();
        if key_index_spec(s, rest, k) >= 0 {
            let ri = key_index_spec(s, rest, k);
            assert(keys[ri + 1] == rest[ri]);
            assert forall|j: int| 0 <= j < ri + 1 implies !key_eql_spec(
                s,
                #[trigger] keys[j],
                k,
            ) by {
                if j > 0 {
                    assert(keys[j] == rest[j - 1]);
                }
            }
        } else {
            if exists|j: int| 0 <= j < keys.len() && key_eql_spec(s, #[trigger] keys[j], k) {
                let j = choose|j: int|
                    0 <= j < keys.len() && key_eql_spec(s, #[trigger] keys[j], k);
                assert(j > 0);
                assert(rest[j - 1] == keys[j]);
                assert(false);
            }
        }
    }
}

/// Folding one more entry at the end is one store into the folded hash.
pub proof fn lemma_hash_fold_snoc(
    s: StateM,
    hm: HashM,
    keys: Seq<RawValue>,
    vals: Seq<RawValue>,
    k: RawValue,
    v: RawValue,
)
    requires
        keys.len() == vals.len(),
    ensures
        hash_fold(s, hm, keys.push(k), vals.push(v)) == hash_set_spec(
            s,
            hash_fold(s, hm, keys, vals),
            k,
            v,
        ),
    decreases keys.len(),
{
    if keys.len() == 0 {
        assert(keys.push(k)[0] == k);
        assert(vals.push(v)[0] == v);
        assert(keys.push(k).drop_first() =~= Seq::<RawValue>::empty());
        assert(vals.push(v).drop_first() =~= Seq::<RawValue>::empty());
        assert(hash_fold(s, hash_set_spec(s, hm, k, v), Seq::empty(), Seq::empty())
            == hash_set_spec(s, hm, k, v));
        assert(hash_fold(s, hm, Seq::empty(), Seq::empty()) == hm);
    } else {
        assert(keys.push(k)[0] == keys[0]);
        assert(vals.push(v)[0] == vals[0]);
        assert(keys.push(k).drop_first() =~= keys.drop_first().push(k));
        assert(vals.push(v).drop_first() =~= vals.drop_first().push(v));
        lemma_hash_fold_snoc(
            s,
            hash_set_spec(s, hm, keys[0], vals[0]),
            keys.drop_first(),
            vals.drop_first(),
            k,
            v,
        );
        assert(hash_fold(s, hm, keys, vals) == hash_fold(
            s,
            hash_set_spec(s, hm, keys[0], vals[0]),
            keys.drop_first(),
            vals.drop_first(),
        ));
    }
}

/// The stored-key fold only reads the string arena of its session
/// argument, so sessions with equal string arenas fold alike.
pub proof fn lemma_hash_fold_same_strings(
    s1: StateM,
    s2: StateM,
    hm: HashM,
    keys: Seq<RawValue>,
    vals: Seq<RawValue>,
)
    requires
        s1.strings == s2.strings,
    ensures
        hash_fold(s1, hm, keys, vals) == hash_fold(s2, hm, keys, vals),
    decreases keys.len(),
{
    if keys.len() != 0 && vals.len() != 0 {
        lemma_key_index_spec_same_strings(s1, s2, hm.keys, keys[0]);
        lemma_hash_fold_same_strings(
            s1,
            s2,
            hash_set_spec(s1, hm, keys[0], vals[0]),
            keys.drop_first(),
            vals.drop_first(),
        );
    }
}

/// First-match search only reads the string arena.
pub proof fn lemma_key_index_spec_same_strings(
    s1: StateM,
    s2: StateM,
    keys: Seq<RawValue>,
    k: RawValue,
)
    requires
        s1.strings == s2.strings,
    ensures
        key_index_spec(s1, keys, k) == key_index_spec(s2, keys, k),
    decreases keys.len(),
{
    if keys.len() != 0 {
        lemma_key_eql_same_strings(s1, s2, keys[0], k);
        lemma_key_index_spec_same_strings(s1, s2, keys.drop_first(), k);
    }
}

/// The host text behind a handle: the content of a string, or the name
/// of a symbol taken as an implicit string view.
pub open spec fn text_of(s: StateM, v: RawValue) -> Option<Seq<char>> {
    match v {
        RawValue::Str(i) => if i < s.strings.len() {
            Some(s.strings[i as int])
        } else {
            None
        },
        RawValue::Sym(i) => if i < s.symbols.len() {
            Some(s.symbols[i as int])
        } else {
            None
        },
        _ => None,
    }
}

/// The value bound to a global variable name; an unset global reads as nil.
pub open spec fn global_get(s: StateM, name: Seq<char>) -> RawValue {
    if exists|j: int| 0 <= j < s.globals.len() && s.globals[j].0 == name {
        let j = choose|j: int| 0 <= j < s.globals.len() && s.globals[j].0 == name;
        s.globals[j].1
    } else {
        RawValue::Nil
    }
}

/// Structural equality under the runtime: two handles compare equal for a
/// marshaled kind exactly when they stand for one and the same datum.
pub open spec fn struct_eql(s: StateM, a: RawValue, b: RawValue) -> bool {
    exists|d: Datum| denotes(s, a, d) && denotes(s, b, d)
}

/// What a handle stands for is stable across any session step that keeps
/// existing arena entries in place.
pub proof fn lemma_denotes_preserved(s1: StateM, s2: StateM, v: RawValue, d: Datum)
    requires
        s1.preserved_in(s2),
        denotes(s1, v, d),
    ensures
        denotes(s2, v, d),
    decreases d,
{
    match d {
        Datum::Ary(ds) => {
            let i = v->Ary_0 as int;
            assert forall|j: int| 0 <= j < ds.len() implies denotes(
                s2,
                s2.arrays[i][j],
                #[trigger] ds[j],
            ) by {
                lemma_denotes_preserved(s1, s2, s1.arrays[i][j], ds[j]);
            }
        },
        Datum::Hash(ks, vs) => {
            let i = v->Hash_0 as int;
            assert forall|j: int| 0 <= j < ks.len() implies denotes(
                s2,
                s2.hashes[i].keys[j],
                #[trigger] ks[j],
            ) by {
                lemma_denotes_preserved(s1, s2, s1.hashes[i].keys[j], ks[j]);
            }
            assert forall|j: int| 0 <= j < vs.len() implies denotes(
                s2,
                s2.hashes[i].vals[j],
                #[trigger] vs[j],
            ) by {
                lemma_denotes_preserved(s1, s2, s1.hashes[i].vals[j], vs[j]);
            }
        },
        _ => {},
    }
}

/// A handle stands for at most one datum: denotation is functional.
pub proof fn lemma_denotes_functional(s: StateM, v: RawValue, d1: Datum, d2: Datum)
    requires
        denotes(s, v, d1),
        denotes(s, v, d2),
    ensures
        d1 == d2,
    decreases d1,
{
    match d1 {
        Datum::Ary(ds1) => {
            let ds2 = d2->Ary_0;
            let i = v->Ary_0 as int;
            assert forall|j: int| 0 <= j < ds1.len() implies #[trigger] ds1[j] == ds2[j] by {
                lemma_denotes_functional(s, s.arrays[i][j], ds1[j], ds2[j]);
            }
            assert(ds1 =~= ds2);
        },
        Datum::Hash(ks1, vs1) => {
            let ks2 = d2->Hash_0;
            let vs2 = d2->Hash_1;
            let i = v->Hash_0 as int;
            assert forall|j: int| 0 <= j < ks1.len() implies #[trigger] ks1[j] == ks2[j] by {
                lemma_denotes_functional(s, s.hashes[i].keys[j], ks1[j], ks2[j]);
            }
            assert forall|j: int| 0 <= j < vs1.len() implies #[trigger] vs1[j] == vs2[j] by {
                lemma_denotes_functional(s, s.hashes[i].vals[j], vs1[j], vs2[j]);
            }
            assert(ks1 =~= ks2);
            assert(vs1 =~= vs2);
        },
        _ => {},
    }
}

/// Preservation of arena entries is transitive across session steps.
pub proof fn lemma_preserved_trans(s1: StateM, s2: StateM, s3: StateM)
    requires
        s1.preserved_in(s2),
        s2.preserved_in(s3),
    ensures
        s1.preserved_in(s3),
{
}

/// Validity of a handle is stable across a preserving session step.
pub proof fn lemma_raw_valid_preserved(s1: StateM, s2: StateM, v: RawValue)
    requires
        s1.preserved_in(s2),
        raw_valid(s1, v),
    ensures
        raw_valid(s2, v),
{
}

/// Validity only reads arena lengths, so it survives any step that does
/// not shrink them.
pub proof fn lemma_raw_valid_lens(s1: StateM, s2: StateM, v: RawValue)
    requires
        raw_valid(s1, v),
        s1.symbols.len() <= s2.symbols.len(),
        s1.strings.len() <= s2.strings.len(),
        s1.arrays.len() <= s2.arrays.len(),
        s1.hashes.len() <= s2.hashes.len(),
    ensures
        raw_valid(s2, v),
{
}

/// Stored-key equality only reads the string arena.
pub proof fn lemma_key_eql_same_strings(s1: StateM, s2: StateM, a: RawValue, b: RawValue)
    requires
        s1.strings == s2.strings,
    ensures
        key_eql_spec(s1, a, b) == key_eql_spec(s2, a, b),
{
}

/// What a column of handles stands for is stable, entry for entry, across
/// a preserving session step.
pub proof fn lemma_seq_denotes_preserved(
    s1: StateM,
    s2: StateM,
    raws: Seq<RawValue>,
    ds: Seq<Datum>,
)
    requires
        s1.preserved_in(s2),
        raws.len() == ds.len(),
        forall|j: int| 0 <= j < raws.len() ==> raw_valid(s1, #[trigger] raws[j]),
        forall|j: int| 0 <= j < raws.len() ==> denotes(s1, #[trigger] raws[j], ds[j]),
    ensures
        forall|j: int| 0 <= j < raws.len() ==> raw_valid(s2, #[trigger] raws[j]),
        forall|j: int| 0 <= j < raws.len() ==> denotes(s2, #[trigger] raws[j], ds[j]),
{
    assert forall|j: int| 0 <= j < raws.len() implies raw_valid(s2, #[trigger] raws[j])
        && denotes(s2, raws[j], ds[j]) by {
        lemma_raw_valid_preserved(s1, s2, raws[j]);
        lemma_denotes_preserved(s1, s2, raws[j], ds[j]);
    }
}

/// Handles standing for different data are never identified by the
/// runtime's stored-key equality.
pub proof fn lemma_distinct_data_not_key_eql(
    s: StateM,
    a: RawValue,
    b: RawValue,
    da: Datum,
    db: Datum,
)
    requires
        denotes(s, a, da),
        denotes(s, b, db),
        da != db,
    ensures
        !key_eql_spec(s, a, b),
{
    if key_eql_spec(s, a, b) {
        match (a, b) {
            (RawValue::Str(i), RawValue::Str(j)) => {
                assert(da matches Datum::Str(t1) && s.strings[i as int] == t1);
                assert(db matches Datum::Str(t2) && s.strings[j as int] == t2);
            },
            _ => {
                assert(a == b);
                lemma_denotes_functional(s, a, da, db);
            },
        }
    }
}

/// Growing a well-formed session by appends alone keeps it well formed,
/// provided every appended entry is itself well formed and valid, and the
/// globals are untouched.
pub proof fn lemma_inv_grow(s1: StateM, s2: StateM)
    requires
        s1.inv(),
        s1.preserved_in(s2),
        s2.globals == s1.globals,
        forall|i: int, j: int|
            s1.symbols.len() <= i < s2.symbols.len() && 0 <= j < s2.symbols.len() && i != j
                ==> s2.symbols[i] != s2.symbols[j],
        forall|i: int, j: int|
            s1.arrays.len() <= i < s2.arrays.len() && 0 <= j < s2.arrays[i].len()
                ==> raw_valid(s2, #[trigger] s2.arrays[i][j]),
        forall|i: int|
            s1.hashes.len() <= i < s2.hashes.len()
                ==> (#[trigger] s2.hashes[i]).keys.len() == s2.hashes[i].vals.len(),
        forall|i: int, j: int|
            s1.hashes.len() <= i < s2.hashes.len() && 0 <= j < s2.hashes[i].keys.len()
                ==> raw_valid(s2, #[trigger] s2.hashes[i].keys[j]),
        forall|i: int, j: int|
            s1.hashes.len() <= i < s2.hashes.len() && 0 <= j < s2.hashes[i].vals.len()
                ==> raw_valid(s2, #[trigger] s2.hashes[i].vals[j]),
    ensures
        s2.inv(),
{
    assert forall|i: int, j: int|
        0 <= i < s2.symbols.len() && 0 <= j < s2.symbols.len() && i != j
            implies s2.symbols[i] != s2.symbols[j] by {
        if i < s1.symbols.len() && j < s1.symbols.len() {
            assert(s1.symbols[i] != s1.symbols[j]);
        }
    }
    assert forall|i: int, j: int|
        0 <= i < s2.arrays.len() && 0 <= j < s2.arrays[i].len()
            implies raw_valid(s2, #[trigger] s2.arrays[i][j]) by {
        if i < s1.arrays.len() {
            assert(s2.arrays[i] == s1.arrays[i]);
            assert(raw_valid(s1, s1.arrays[i][j]));
        }
    }
    assert forall|i: int|
        0 <= i < s2.hashes.len()
            implies (#[trigger] s2.hashes[i]).keys.len() == s2.hashes[i].vals.len() by {
        if i < s1.hashes.len() {
            assert(s2.hashes[i] == s1.hashes[i]);
        }
    }
    assert forall|i: int, j: int|
        0 <= i < s2.hashes.len() && 0 <= j < s2.hashes[i].keys.len()
            implies raw_valid(s2, #[trigger] s2.hashes[i].keys[j]) by {
        if i < s1.hashes.len() {
            assert(s2.hashes[i] == s1.hashes[i]);
            assert(raw_valid(s1, s1.hashes[i].keys[j]));
        }
    }
    assert forall|i: int, j: int|
        0 <= i < s2.hashes.len() && 0 <= j < s2.hashes[i].vals.len()
            implies raw_valid(s2, #[trigger] s2.hashes[i].vals[j]) by {
        if i < s1.hashes.len() {
            assert(s2.hashes[i] == s1.hashes[i]);
            assert(raw_valid(s1, s1.hashes[i].vals[j]));
        }
    }
    assert forall|i: int| 0 <= i < s2.globals.len() implies raw_valid(
        s2,
        (#[trigger] s2.globals[i]).1,
    ) by {
        assert(s2.globals[i] == s1.globals[i]);
        assert(raw_valid(s1, s1.globals[i].1));
    }
}

/// One runtime hash: insertion-ordered parallel key and value columns.
#[derive(Debug)]
pub(crate) struct HashRec {
    pub(crate) keys: Vec<RawValue>,
    pub(crate) vals: Vec<RawValue>,
}

/// A runtime session. It owns every dynamic value ever produced for it;
/// handles index into its arenas and are reclaimed only with the session.
#[derive(Debug)]
pub struct State {
    symbols: Vec<String>,
    strings: Vec<String>,
    arrays: Vec<Vec<RawValue>>,
    hashes: Vec<HashRec>,
    globals: Vec<(String, RawValue)>,
}

impl View for State {
    type V = StateM;

    closed spec fn view(&self) -> StateM {
        StateM {
            symbols: self.symbols@.map_values(|t: String| t@),
            strings: self.strings@.map_values(|t: String| t@),
            arrays: self.arrays@.map_values(|a: Vec<RawValue>| a@),
            hashes: self.hashes@.map_values(|h: HashRec| HashM { keys: h.keys@, vals: h.vals@ }),
            globals: self.globals@.map_values(|g: (String, RawValue)| (g.0@, g.1)),
        }
    }
}

impl State {
    /// Open a fresh session with empty arenas and no globals.
    pub fn new() -> (s: State)
        ensures
            s@.inv(),
            s@.symbols =~= Seq::<Seq<char>>::empty(),
            s@.strings =~= Seq::<Seq<char>>::empty(),
            s@.arrays =~= Seq::<Seq<RawValue>>::empty(),
            s@.hashes =~= Seq::<HashM>::empty(),
            s@.globals =~= Seq::<(Seq<char>, RawValue)>::empty(),
    {
        State {
            symbols: Vec::new(),
            strings: Vec::new(),
            arrays: Vec::new(),
            hashes: Vec::new(),
            globals: Vec::new(),
        }
    }

    /// Look a symbol name up among the already interned names.
    fn sym_lookup(&self, name: &String) -> (r: Option<usize>)
        ensures
            match r {
                Some(i) => i < self@.symbols.len() && self@.symbols[i as int] == name@,
                None => !self@.symbols.contains(name@),
            },
    {
        let n = self.symbols.len();
        for i in 0..n
            invariant
                n == self.symbols.len(),
                forall|j: int| 0 <= j < i ==> self@.symbols[j] != name@,
        {
            assert(self@.symbols[i as int] == self.symbols@[i as int]@);
            if self.symbols[i] == *name {
                return Some(i);
            }
        }
        proof {
            if self@.symbols.contains(name@) {
                let j = choose|j: int|
                    0 <= j < self@.symbols.len() && self@.symbols[j] == name@;
                assert(false);
            }
        }
        None
    }

    /// Intern a symbol name: the id of the existing entry with this exact
    /// text, or a fresh id for a newly recorded name.
    pub(crate) fn intern(&mut self, name: &str) -> (id: usize)
        requires
            old(self)@.inv(),
        ensures
            final(self)@.inv(),
            old(self)@.preserved_in(final(self)@),
            final(self)@.strings == old(self)@.strings,
            final(self)@.arrays == old(self)@.arrays,
            final(self)@.hashes == old(self)@.hashes,
            final(self)@.globals == old(self)@.globals,
            id < final(self)@.symbols.len(),
            final(self)@.symbols[id as int] == name@,
            old(self)@.symbols.contains(name@) ==> final(self)@.symbols == old(self)@.symbols,
            !old(self)@.symbols.contains(name@) ==> final(self)@.symbols
                == old(self)@.symbols.push(name@),
    {
        let owned: String = name.to_owned();
        match self.sym_lookup(&owned) {
            Some(i) => i,
            None => {
                let id = self.symbols.len();
                self.symbols.push(owned);
                proof {
                    assert(self@.symbols =~= old(self)@.symbols.push(name@));
                    assert forall|i: int, j: int|
                        old(self)@.symbols.len() <= i < self@.symbols.len() && 0 <= j
                            < self@.symbols.len() && i != j
                            implies self@.symbols[i] != self@.symbols[j] by {
                        assert(self@.symbols[i] == name@);
                        assert(!old(self)@.symbols.contains(name@));
                    }
                    lemma_inv_grow(old(self)@, self@);
                }
                id
            },
        }
    }

    /// The interned name behind a symbol id.
    pub(crate) fn sym_name(&self, id: usize) -> (r: String)
        requires
            id < self@.symbols.len(),
        ensures
            r@ == self@.symbols[id as int],
    {
        let r = self.symbols[id].clone();
        assert(self@.symbols[id as int] == self.symbols@[id as int]@);
        r
    }

    /// Allocate a fresh runtime string holding a copy of `text`.
    pub(crate) fn str_new(&mut self, text: &str) -> (v: Value)
        requires
            old(self)@.inv(),
        ensures
            final(self)@.inv(),
            old(self)@.preserved_in(final(self)@),
            final(self)@.symbols == old(self)@.symbols,
            final(self)@.strings == old(self)@.strings.push(text@),
            final(self)@.arrays == old(self)@.arrays,
            final(self)@.hashes == old(self)@.hashes,
            final(self)@.globals == old(self)@.globals,
            v@ is Str,
            v@->Str_0 as int == old(self)@.strings.len() as int,
            denotes(final(self)@, v@, Datum::Str(text@)),
    {
        let idx = self.strings.len();
        self.strings.push(text.to_owned());
        proof {
            assert(self@.strings =~= old(self)@.strings.push(text@));
            lemma_inv_grow(old(self)@, self@);
        }
        Value::from_raw(RawValue::Str(idx))
    }

    /// Read a runtime string back as host text.
    pub(crate) fn str_content(&self, idx: usize) -> (r: String)
        requires
            idx < self@.strings.len(),
        ensures
            r@ == self@.strings[idx as int],
    {
        let r = self.strings[idx].clone();
        assert(self@.strings[idx as int] == self.strings@[idx as int]@);
        r
    }

    /// Allocate a runtime array holding exactly the given elements.
    pub(crate) fn ary_new_from_values(&mut self, elems: Vec<RawValue>) -> (v: Value)
        requires
            old(self)@.inv(),
            forall|j: int| 0 <= j < elems@.len() ==> raw_valid(old(self)@, #[trigger] elems@[j]),
        ensures
            final(self)@.inv(),
            old(self)@.preserved_in(final(self)@),
            final(self)@.symbols == old(self)@.symbols,
            final(self)@.strings == old(self)@.strings,
            final(self)@.arrays == old(self)@.arrays.push(elems@),
            final(self)@.hashes == old(self)@.hashes,
            final(self)@.globals == old(self)@.globals,
            v@ is Ary,
            v@->Ary_0 as int == old(self)@.arrays.len() as int,
    {
        let idx = self.arrays.len();
        let ghost elems_view = elems@;
        self.arrays.push(elems);
        proof {
            assert(self@.arrays =~= old(self)@.arrays.push(elems_view));
            lemma_inv_grow(old(self)@, self@);
        }
        Value::from_raw(RawValue::Ary(idx))
    }

    /// The element count of a runtime array.
    pub(crate) fn ary_len(&self, idx: usize) -> (n: usize)
        requires
            idx < self@.arrays.len(),
        ensures
            n == self@.arrays[idx as int].len(),
    {
        let n = self.arrays[idx].len();
        assert(self@.arrays[idx as int] == self.arrays@[idx as int]@);
        n
    }

    /// One indexed element read from a runtime array.
    pub(crate) fn ary_ref(&self, idx: usize, i: usize) -> (r: RawValue)
        requires
            idx < self@.arrays.len(),
            i < self@.arrays[idx as int].len(),
        ensures
            r == self@.arrays[idx as int][i as int],
    {
        assert(self@.arrays[idx as int] == self.arrays@[idx as int]@);
        self.arrays[idx][i]
    }

    /// Allocate a fresh, empty runtime hash.
    pub(crate) fn hash_new(&mut self) -> (v: Value)
        requires
            old(self)@.inv(),
        ensures
            final(self)@.inv(),
            old(self)@.preserved_in(final(self)@),
            final(self)@.symbols == old(self)@.symbols,
            final(self)@.strings == old(self)@.strings,
            final(self)@.arrays == old(self)@.arrays,
            final(self)@.hashes == old(self)@.hashes.push(
                HashM { keys: Seq::empty(), vals: Seq::empty() },
            ),
            final(self)@.globals == old(self)@.globals,
            v@ is Hash,
            v@->Hash_0 as int == old(self)@.hashes.len() as int,
    {
        let idx = self.hashes.len();
        self.hashes.push(HashRec { keys: Vec::new(), vals: Vec::new() });
        proof {
            assert(self@.hashes =~= old(self)@.hashes.push(
                HashM { keys: Seq::empty(), vals: Seq::empty() },
            ));
            lemma_inv_grow(old(self)@, self@);
        }
        Value::from_raw(RawValue::Hash(idx))
    }

    /// Decide the runtime's stored-key equality for two handles.
    fn key_eql(&self, a: RawValue, b: RawValue) -> (r: bool)
        requires
            raw_valid(self@, a),
            raw_valid(self@, b),
        ensures
            r == key_eql_spec(self@, a, b),
    {
        match (a, b) {
            (RawValue::Str(i), RawValue::Str(j)) => {
                assert(self@.strings[i as int] == self.strings@[i as int]@);
                assert(self@.strings[j as int] == self.strings@[j as int]@);
                self.strings[i] == self.strings[j]
            },
            _ => a == b,
        }
    }

    /// Store one entry in a runtime hash: a key already present (under the
    /// runtime's key equality) has its value replaced in place; a new key
    /// is appended together with its value, preserving insertion order.
    pub(crate) fn hash_set(&mut self, h: usize, k: RawValue, v: RawValue)
        requires
            old(self)@.inv(),
            h < old(self)@.hashes.len(),
            raw_valid(old(self)@, k),
            raw_valid(old(self)@, v),
        ensures
            final(self)@.inv(),
            final(self)@.symbols == old(self)@.symbols,
            final(self)@.strings == old(self)@.strings,
            final(self)@.arrays == old(self)@.arrays,
            final(self)@.globals == old(self)@.globals,
            final(self)@.hashes.len() == old(self)@.hashes.len(),
            forall|i: int|
                0 <= i < old(self)@.hashes.len() && i != h ==> final(self)@.hashes[i] == old(
                    self,
                )@.hashes[i],
            final(self)@.hashes[h as int] == hash_set_spec(
                old(self)@,
                old(self)@.hashes[h as int],
                k,
                v,
            ),
    {
        let ghost s1 = self@;
        let ghost hm = s1.hashes[h as int];
        proof {
            assert(hm == HashM { keys: self.hashes@[h as int].keys@, vals: self.hashes@[h as int].vals@ });
        }
        let n = self.hashes[h].keys.len();
        let mut found: Option<usize> = None;
        for j in 0..n
            invariant
                self == old(self),
                self@ == s1,
                s1.inv(),
                h < s1.hashes.len(),
                raw_valid(s1, k),
                hm == s1.hashes[h as int],
                n == hm.keys.len(),
                found matches Some(f) ==> {
                    &&& 0 <= f < n
                    &&& key_eql_spec(s1, hm.keys[f as int], k)
                    &&& forall|j2: int| 0 <= j2 < f ==> !key_eql_spec(s1, hm.keys[j2], k)
                },
                found is None ==> forall|j2: int| 0 <= j2 < j ==> !key_eql_spec(s1, hm.keys[j2], k),
        {
            if found.is_none() {
                let kj = self.hashes[h].keys[j];
                proof {
                    assert(kj == hm.keys[j as int]);
                    assert(raw_valid(s1, hm.keys[j as int]));
                }
                if self.key_eql(kj, k) {
                    found = Some(j);
                }
            }
        }
        let ghost hs0 = self.hashes@;
        let mut rec = self.hashes.remove(h);
        proof {
            assert(rec.keys@ == hm.keys);
            assert(rec.vals@ == hm.vals);
        }
        match found {
            Some(j) => {
                rec.vals.remove(j);
                rec.vals.insert(j, v);
                proof {
                    assert(rec.vals@ =~= hm.vals.update(j as int, v));
                }
            },
            None => {
                rec.keys.push(k);
                rec.vals.push(v);
            },
        }
        let ghost rec_g = rec;
        let ghost hm2 = HashM { keys: rec_g.keys@, vals: rec_g.vals@ };
        self.hashes.insert(h, rec);
        proof {
            assert(self.hashes@ =~= hs0.update(h as int, rec_g));
            assert(self@.hashes =~= s1.hashes.update(h as int, hm2));
            lemma_key_index_spec_props(s1, hm.keys, k);
            let ki = key_index_spec(s1, hm.keys, k);
            match found {
                Some(j) => {
                    assert(ki >= 0);
                    if ki < j as int {
                        assert(!key_eql_spec(s1, hm.keys[ki], k));
                        assert(false);
                    }
                    if ki > j as int {
                        assert(!key_eql_spec(s1, hm.keys[j as int], k));
                        assert(false);
                    }
                    assert(hm2 == hash_set_spec(s1, hm, k, v));
                },
                None => {
                    assert(ki < 0);
                    assert(hm2 == hash_set_spec(s1, hm, k, v));
                },
            }
            let s2 = self@;
            assert forall|i: int, j: int|
                0 <= i < s2.hashes.len() && 0 <= j < s2.hashes[i].keys.len() implies raw_valid(
                s2,
                #[trigger] s2.hashes[i].keys[j],
            ) by {
                if i != h {
                    assert(s2.hashes[i] == s1.hashes[i]);
                    assert(raw_valid(s1, s1.hashes[i].keys[j]));
                } else {
                    if j < hm.keys.len() {
                        assert(s2.hashes[i].keys[j] == hm.keys[j]);
                        assert(raw_valid(s1, s1.hashes[h as int].keys[j]));
                    } else {
                        assert(s2.hashes[i].keys[j] == k);
                    }
                }
            }
            assert forall|i: int, j: int|
                0 <= i < s2.hashes.len() && 0 <= j < s2.hashes[i].vals.len() implies raw_valid(
                s2,
                #[trigger] s2.hashes[i].vals[j],
            ) by {
                if i != h {
                    assert(s2.hashes[i] == s1.hashes[i]);
                    assert(raw_valid(s1, s1.hashes[i].vals[j]));
                } else {
                    if s2.hashes[i].vals[j] == v {
                    } else {
                        assert(s2.hashes[i].vals[j] == s1.hashes[h as int].vals[j]);
                        assert(raw_valid(s1, s1.hashes[h as int].vals[j]));
                    }
                }
            }
            assert forall|i: int| 0 <= i < s2.hashes.len() implies (
            #[trigger] s2.hashes[i]).keys.len() == s2.hashes[i].vals.len() by {
                if i != h {
                    assert(s2.hashes[i] == s1.hashes[i]);
                }
            }
            assert forall|i: int, j: int|
                0 <= i < s2.arrays.len() && 0 <= j < s2.arrays[i].len() implies raw_valid(
                s2,
                #[trigger] s2.arrays[i][j],
            ) by {
                assert(raw_valid(s1, s1.arrays[i][j]));
            }
            assert forall|i: int| 0 <= i < s2.globals.len() implies raw_valid(
                s2,
                (#[trigger] s2.globals[i]).1,
            ) by {
                assert(raw_valid(s1, s1.globals[i].1));
            }
            assert(s2.symbols == s1.symbols);
            assert(s2.strings == s1.strings);
            assert(s2.arrays == s1.arrays);
            assert(s2.globals == s1.globals);
            assert forall|i: int, j: int|
                0 <= i < s2.symbols.len() && 0 <= j < s2.symbols.len() && i != j implies s2.symbols[i]
                != s2.symbols[j] by {
                assert(s1.symbols[i] != s1.symbols[j]);
            }
            assert forall|i: int, j: int|
                0 <= i < s2.globals.len() && 0 <= j < s2.globals.len() && i != j implies s2.globals[i].0
                != s2.globals[j].0 by {
                assert(s1.globals[i].0 != s1.globals[j].0);
            }
        }
    }

    /// Extract the key column of a runtime hash as a fresh runtime array.
    pub(crate) fn hash_keys(&mut self, h: usize) -> (v: Value)
        requires
            old(self)@.inv(),
            h < old(self)@.hashes.len(),
        ensures
            final(self)@.inv(),
            old(self)@.preserved_in(final(self)@),
            final(self)@.symbols == old(self)@.symbols,
            final(self)@.strings == old(self)@.strings,
            final(self)@.arrays == old(self)@.arrays.push(old(self)@.hashes[h as int].keys),
            final(self)@.hashes == old(self)@.hashes,
            final(self)@.globals == old(self)@.globals,
            v@ is Ary,
            v@->Ary_0 as int == old(self)@.arrays.len() as int,
    {
        let column = self.copy_hash_column(h, true);
        self.ary_new_from_values(column)
    }

    /// Extract the value column of a runtime hash as a fresh runtime array.
    pub(crate) fn hash_values(&mut self, h: usize) -> (v: Value)
        requires
            old(self)@.inv(),
            h < old(self)@.hashes.len(),
        ensures
            final(self)@.inv(),
            old(self)@.preserved_in(final(self)@),
            final(self)@.symbols == old(self)@.symbols,
            final(self)@.strings == old(self)@.strings,
            final(self)@.arrays == old(self)@.arrays.push(old(self)@.hashes[h as int].vals),
            final(self)@.hashes == old(self)@.hashes,
            final(self)@.globals == old(self)@.globals,
            v@ is Ary,
            v@->Ary_0 as int == old(self)@.arrays.len() as int,
    {
        let column = self.copy_hash_column(h, false);
        self.ary_new_from_values(column)
    }

    /// Copy one column of a hash out into a host-side vector of handles.
    fn copy_hash_column(&self, h: usize, keys: bool) -> (out: Vec<RawValue>)
        requires
            self@.inv(),
            h < self@.hashes.len(),
        ensures
            keys ==> out@ == self@.hashes[h as int].keys,
            !keys ==> out@ == self@.hashes[h as int].vals,
            forall|j: int| 0 <= j < out@.len() ==> raw_valid(self@, #[trigger] out@[j]),
    {
        proof {
            assert(self@.hashes[h as int] == HashM {
                keys: self.hashes@[h as int].keys@,
                vals: self.hashes@[h as int].vals@,
            });
        }
        let rec = &self.hashes[h];
        let src = if keys {
            &rec.keys
        } else {
            &rec.vals
        };
        let ghost target = if keys {
            self@.hashes[h as int].keys
        } else {
            self@.hashes[h as int].vals
        };
        let mut out: Vec<RawValue> = Vec::new();
        let n = src.len();
        for i in 0..n
            invariant
                n == src@.len(),
                src@ == target,
                out@ == target.take(i as int),
                self@.inv(),
                h < self@.hashes.len(),
                target == (if keys {
                    self@.hashes[h as int].keys
                } else {
                    self@.hashes[h as int].vals
                }),
        {
            out.push(src[i]);
            proof {
                assert(out@ =~= target.take(i + 1 as int));
            }
        }
        proof {
            assert(out@ =~= target);
        }
        out
    }

    /// A conversion context for turning host values into values of this
    /// session.
    pub fn serialize(&mut self) -> (ser: crate::ser::Serializer)
        ensures
            final(self)@ == old(self)@,
    {
        crate::ser::Serializer::new()
    }

    /// A single-use extraction context over one dynamic value of this
    /// session.
    pub fn deserialize(&mut self, value: Value) -> (de: crate::de::Deserializer)
        ensures
            final(self)@ == old(self)@,
            de@ == value@,
    {
        crate::de::Deserializer::new(value)
    }

    /// Bind a global variable name to a value, replacing any prior binding.
    pub(crate) fn gv_set(&mut self, name: &str, v: RawValue)
        requires
            old(self)@.inv(),
            raw_valid(old(self)@, v),
        ensures
            final(self)@.inv(),
            old(self)@.preserved_in(final(self)@),
            final(self)@.symbols == old(self)@.symbols,
            final(self)@.strings == old(self)@.strings,
            final(self)@.arrays == old(self)@.arrays,
            final(self)@.hashes == old(self)@.hashes,
            global_get(final(self)@, name@) == v,
            forall|other: Seq<char>|
                other != name@ ==> #[trigger] global_get(final(self)@, other) == global_get(
                    old(self)@,
                    other,
                ),
    {
        let owned: String = name.to_owned();
        let n = self.globals.len();
        let mut found: Option<usize> = None;
        for i in 0..n
            invariant
                n == self.globals.len(),
                owned@ == name@,
                found matches Some(f) ==> 0 <= f < n && self@.globals[f as int].0 == name@,
                found is None ==> forall|j: int| 0 <= j < i ==> self@.globals[j].0 != name@,
        {
            proof {
                assert(self@.globals[i as int] == (self.globals@[i as int].0@,
                self.globals@[i as int].1));
            }
            if found.is_none() {
                if self.globals[i].0 == owned {
                    found = Some(i);
                }
            }
        }
        match found {
            Some(i) => {
                self.globals.remove(i);
                self.globals.insert(i, (owned, v));
                proof {
                    assert(self@.globals =~= old(self)@.globals.update(
                        i as int,
                        (name@, v),
                    ));
                    lemma_globals_update(old(self)@, self@, i as int, name@, v);
                }
            },
            None => {
                self.globals.push((owned, v));
                proof {
                    assert(self@.globals =~= old(self)@.globals.push((name@, v)));
                    lemma_globals_push(old(self)@, self@, name@, v);
                }
            },
        }
    }

    /// Read a global variable; a name never bound reads as nil.
    pub(crate) fn gv_get(&self, name: &str) -> (r: RawValue)
        requires
            self@.inv(),
        ensures
            r == global_get(self@, name@),
            raw_valid(self@, r),
    {
        let owned: String = name.to_owned();
        let n = self.globals.len();
        for i in 0..n
            invariant
                n == self.globals.len(),
                owned@ == name@,
                self@.inv(),
                forall|j: int| 0 <= j < i ==> self@.globals[j].0 != name@,
        {
            proof {
                assert(self@.globals[i as int] == (self.globals@[i as int].0@,
                self.globals@[i as int].1));
            }
            if self.globals[i].0 == owned {
                proof {
                    assert(self@.globals[i as int].0 == name@);
                    let j = choose|j: int|
                        0 <= j < self@.globals.len() && self@.globals[j].0 == name@;
                    if j != i as int {
                        assert(self@.globals[j].0 != self@.globals[i as int].0);
                        assert(false);
                    }
                    assert(raw_valid(self@, self@.globals[i as int].1));
                }
                return self.globals[i].1;
            }
        }
        proof {
            if exists|j: int| 0 <= j < self@.globals.len() && self@.globals[j].0 == name@ {
                let j = choose|j: int|
                    0 <= j < self@.globals.len() && self@.globals[j].0 == name@;
                assert(false);
            }
        }
        RawValue::Nil
    }
}

/// Replacing the binding at one index, with its name kept, leaves every
/// other global binding's reading unchanged.
proof fn lemma_globals_update(s1: StateM, s2: StateM, i: int, name: Seq<char>, v: RawValue)
    requires
        s1.inv(),
        0 <= i < s1.globals.len(),
        s1.globals[i].0 == name,
        s2.symbols == s1.symbols,
        s2.strings == s1.strings,
        s2.arrays == s1.arrays,
        s2.hashes == s1.hashes,
        raw_valid(s1, v),
        s2.globals == s1.globals.update(i, (name, v)),
    ensures
        s2.inv(),
        global_get(s2, name) == v,
        forall|other: Seq<char>|
            other != name ==> #[trigger] global_get(s2, other) == global_get(s1, other),
{
    assert forall|a: int, b: int|
        0 <= a < s2.globals.len() && 0 <= b < s2.globals.len() && a != b implies s2.globals[a].0
        != s2.globals[b].0 by {
        assert(s2.globals[a].0 == s1.globals[a].0);
        assert(s2.globals[b].0 == s1.globals[b].0);
    }
    assert forall|a: int| 0 <= a < s2.globals.len() implies raw_valid(
        s2,
        (#[trigger] s2.globals[a]).1,
    ) by {
        if a != i {
            assert(s2.globals[a] == s1.globals[a]);
            assert(raw_valid(s1, s1.globals[a].1));
        }
    }
    assert forall|a: int, b: int|
        0 <= a < s2.arrays.len() && 0 <= b < s2.arrays[a].len() implies raw_valid(
        s2,
        #[trigger] s2.arrays[a][b],
    ) by {
        assert(raw_valid(s1, s1.arrays[a][b]));
    }
    assert forall|a: int, b: int|
        0 <= a < s2.hashes.len() && 0 <= b < s2.hashes[a].keys.len() implies raw_valid(
        s2,
        #[trigger] s2.hashes[a].keys[b],
    ) by {
        assert(raw_valid(s1, s1.hashes[a].keys[b]));
    }
    assert forall|a: int, b: int|
        0 <= a < s2.hashes.len() && 0 <= b < s2.hashes[a].vals.len() implies raw_valid(
        s2,
        #[trigger] s2.hashes[a].vals[b],
    ) by {
        assert(raw_valid(s1, s1.hashes[a].vals[b]));
    }
    let j = choose|j: int| 0 <= j < s2.globals.len() && s2.globals[j].0 == name;
    assert(s2.globals[i].0 == name);
    assert(j == i);
    assert forall|other: Seq<char>| other != name implies #[trigger] global_get(s2, other)
        == global_get(s1, other) by {
        if exists|a: int| 0 <= a < s1.globals.len() && s1.globals[a].0 == other {
            let a = choose|a: int| 0 <= a < s1.globals.len() && s1.globals[a].0 == other;
            assert(s2.globals[a].0 == other);
            let b = choose|b: int| 0 <= b < s2.globals.len() && s2.globals[b].0 == other;
            assert(b == a);
        } else {
            assert forall|a: int| 0 <= a < s2.globals.len() implies (
            #[trigger] s2.globals[a]).0 != other by {
                if a == i {
                } else {
                    assert(s2.globals[a] == s1.globals[a]);
                }
            }
        }
    }
}

/// Binding a fresh name appends it and leaves every other binding's
/// reading unchanged.
proof fn lemma_globals_push(s1: StateM, s2: StateM, name: Seq<char>, v: RawValue)
    requires
        s1.inv(),
        forall|j: int| 0 <= j < s1.globals.len() ==> s1.globals[j].0 != name,
        s2.symbols == s1.symbols,
        s2.strings == s1.strings,
        s2.arrays == s1.arrays,
        s2.hashes == s1.hashes,
        raw_valid(s1, v),
        s2.globals == s1.globals.push((name, v)),
    ensures
        s2.inv(),
        global_get(s2, name) == v,
        forall|other: Seq<char>|
            other != name ==> #[trigger] global_get(s2, other) == global_get(s1, other),
{
    let n = s1.globals.len() as int;
    assert forall|a: int, b: int|
        0 <= a < s2.globals.len() && 0 <= b < s2.globals.len() && a != b implies s2.globals[a].0
        != s2.globals[b].0 by {
        if a < n && b < n {
            assert(s2.globals[a] == s1.globals[a]);
            assert(s2.globals[b] == s1.globals[b]);
        } else if a == n {
            assert(s2.globals[b] == s1.globals[b]);
        } else {
            assert(s2.globals[a] == s1.globals[a]);
        }
    }
    assert forall|a: int| 0 <= a < s2.globals.len() implies raw_valid(
        s2,
        (#[trigger] s2.globals[a]).1,
    ) by {
        if a < n {
            assert(s2.globals[a] == s1.globals[a]);
            assert(raw_valid(s1, s1.globals[a].1));
        }
    }
    assert forall|a: int, b: int|
        0 <= a < s2.arrays.len() && 0 <= b < s2.arrays[a].len() implies raw_valid(
        s2,
        #[trigger] s2.arrays[a][b],
    ) by {
        assert(raw_valid(s1, s1.arrays[a][b]));
    }
    assert forall|a: int, b: int|
        0 <= a < s2.hashes.len() && 0 <= b < s2.hashes[a].keys.len() implies raw_valid(
        s2,
        #[trigger] s2.hashes[a].keys[b],
    ) by {
        assert(raw_valid(s1, s1.hashes[a].keys[b]));
    }
    assert forall|a: int, b: int|
        0 <= a < s2.hashes.len() && 0 <= b < s2.hashes[a].vals.len() implies raw_valid(
        s2,
        #[trigger] s2.hashes[a].vals[b],
    ) by {
        assert(raw_valid(s1, s1.hashes[a].vals[b]));
    }
    assert(s2.globals[n].0 == name);
    let j = choose|j: int| 0 <= j < s2.globals.len() && s2.globals[j].0 == name;
    assert(j == n);
    assert forall|other: Seq<char>| other != name implies #[trigger] global_get(s2, other)
        == global_get(s1, other) by {
        if exists|a: int| 0 <= a < s1.globals.len() && s1.globals[a].0 == other {
            let a = choose|a: int| 0 <= a < s1.globals.len() && s1.globals[a].0 == other;
            assert(s2.globals[a].0 == other);
            let b = choose|b: int| 0 <= b < s2.globals.len() && s2.globals[b].0 == other;
            assert(b == a);
        } else {
            assert forall|a: int| 0 <= a < s2.globals.len() implies (
            #[trigger] s2.globals[a]).0 != other by {
                if a == n {
                } else {
                    assert(s2.globals[a] == s1.globals[a]);
                }
            }
        }
    }
}

} // verus!
