//! The object/class extension point: the capability that binds a host
//! record type to a runtime class, and the builder that declares the
//! class's constants and instance variables.
//!
//! The concrete encoding of instances is deliberately left open; this
//! module fixes only the registration contract.

use vstd::prelude::*;

use crate::ser::{Serializer, ToValue};
use crate::state::{denotes, raw_valid, State, StateM};
use crate::value::{Datum, RawValue};

verus! {

/// The capability that binds a host record type to a runtime class: a
/// class name, an optional parent class name (the runtime's own class is
/// the parent when none is given), and a registration procedure that
/// declares the class's constants and variables on a builder.
///
/// Implementations come from outside this crate; the contract here is
/// what the registration procedure may assume and must keep.
pub trait Class {
    fn class_name() -> String;

    fn parent_name() -> Option<String>;

    fn define(builder: &mut Builder, st: &mut State)
        requires
            old(st)@.inv(),
            old(builder).wf(old(st)@),
        ensures
            final(st)@.inv(),
            old(st)@.preserved_in(final(st)@),
            final(builder).wf(final(st)@),
    ;
}

/// The parent class a declaration resolves to: the runtime's root object
/// class when none is named, the named class otherwise.
pub open spec fn parent_spec(parent: Option<Seq<char>>) -> Seq<char> {
    match parent {
        None => "Object"@,
        Some(p) => p,
    }
}

/// A class under construction: its resolved parent, and the constants
/// and instance variables declared on it so far, each a name bound to a
/// converted dynamic value.
#[derive(Debug)]
pub struct Builder {
    name: String,
    parent: String,
    consts: Vec<(String, RawValue)>,
    vars: Vec<(String, RawValue)>,
}

impl Builder {
    pub closed spec fn name_spec(self) -> Seq<char> {
        self.name@
    }

    pub closed spec fn parent_name_spec(self) -> Seq<char> {
        self.parent@
    }

    /// The declared constants: names in declaration order, each with the
    /// handle it is bound to.
    pub closed spec fn consts_spec(self) -> Seq<(Seq<char>, RawValue)> {
        self.consts@.map_values(|c: (String, RawValue)| (c.0@, c.1))
    }

    pub closed spec fn vars_spec(self) -> Seq<(Seq<char>, RawValue)> {
        self.vars@.map_values(|c: (String, RawValue)| (c.0@, c.1))
    }

    /// Every bound handle is valid in the session.
    pub open spec fn wf(self, s: StateM) -> bool {
        &&& forall|i: int|
            0 <= i < self.consts_spec().len() ==> raw_valid(s, (#[trigger] self.consts_spec()[i]).1)
        &&& forall|i: int|
            0 <= i < self.vars_spec().len() ==> raw_valid(s, (#[trigger] self.vars_spec()[i]).1)
    }

    /// Begin a class declaration, resolving the parent name.
    pub fn new(st: &mut State, name: &str, parent: Option<&str>) -> (b: Builder)
        requires
            old(st)@.inv(),
        ensures
            final(st)@ == old(st)@,
            b.wf(final(st)@),
            b.name_spec() == name@,
            b.parent_name_spec() == parent_spec(match parent {
                Some(p) => Some(p@),
                None => None,
            }),
            b.consts_spec() == Seq::<(Seq<char>, RawValue)>::empty(),
            b.vars_spec() == Seq::<(Seq<char>, RawValue)>::empty(),
    {
        let parent_owned: String = match parent {
            None => "Object".to_owned(),
            Some(p) => p.to_owned(),
        };
        let b = Builder {
            name: name.to_owned(),
            parent: parent_owned,
            consts: Vec::new(),
            vars: Vec::new(),
        };
        proof {
            assert(b.consts_spec() =~= Seq::<(Seq<char>, RawValue)>::empty());
            assert(b.vars_spec() =~= Seq::<(Seq<char>, RawValue)>::empty());
        }
        b
    }

    /// How many constants have been declared.
    pub fn consts_len(&self) -> (n: usize)
        ensures
            n == self.consts_spec().len(),
    {
        self.consts.len()
    }

    /// How many instance variables have been declared.
    pub fn vars_len(&self) -> (n: usize)
        ensures
            n == self.vars_spec().len(),
    {
        self.vars.len()
    }

    /// Declare one constant on the class: the value is converted and the
    /// binding appended in declaration order.
    pub fn def_const<V: ToValue>(&mut self, st: &mut State, name: &str, value: &V)
        requires
            old(st)@.inv(),
            old(self).wf(old(st)@),
        ensures
            final(st)@.inv(),
            old(st)@.preserved_in(final(st)@),
            final(self).wf(final(st)@),
            final(self).name_spec() == old(self).name_spec(),
            final(self).parent_name_spec() == old(self).parent_name_spec(),
            final(self).vars_spec() == old(self).vars_spec(),
            final(self).consts_spec().len() == old(self).consts_spec().len() + 1,
            forall|i: int|
                0 <= i < old(self).consts_spec().len() ==> final(self).consts_spec()[i] == old(
                    self,
                ).consts_spec()[i],
            final(self).consts_spec().last().0 == name@,
            denotes(final(st)@, final(self).consts_spec().last().1, value.datum()),
    {
        let v = value.to_value(Serializer::new(), st);
        self.consts.push((name.to_owned(), v.into_inner()));
        proof {
            assert(self.consts@.last() == (self.consts@.last().0, self.consts@.last().1));
            assert(final(self).consts_spec() =~= old(self).consts_spec().push(
                (name@, v@),
            ));
            assert forall|i: int|
                0 <= i < self.consts_spec().len() implies raw_valid(
                st@,
                (#[trigger] self.consts_spec()[i]).1,
            ) by {
                if i < old(self).consts_spec().len() {
                    crate::state::lemma_raw_valid_preserved(
                        old(st)@,
                        st@,
                        old(self).consts_spec()[i].1,
                    );
                }
            }
            assert forall|i: int|
                0 <= i < self.vars_spec().len() implies raw_valid(
                st@,
                (#[trigger] self.vars_spec()[i]).1,
            ) by {
                crate::state::lemma_raw_valid_preserved(old(st)@, st@, old(self).vars_spec()[i].1);
            }
        }
    }

    /// Declare one instance variable on the class, in the same way.
    pub fn def_var<V: ToValue>(&mut self, st: &mut State, name: &str, value: &V)
        requires
            old(st)@.inv(),
            old(self).wf(old(st)@),
        ensures
            final(st)@.inv(),
            old(st)@.preserved_in(final(st)@),
            final(self).wf(final(st)@),
            final(self).name_spec() == old(self).name_spec(),
            final(self).parent_name_spec() == old(self).parent_name_spec(),
            final(self).consts_spec() == old(self).consts_spec(),
            final(self).vars_spec().len() == old(self).vars_spec().len() + 1,
            forall|i: int|
                0 <= i < old(self).vars_spec().len() ==> final(self).vars_spec()[i] == old(
                    self,
                ).vars_spec()[i],
            final(self).vars_spec().last().0 == name@,
            denotes(final(st)@, final(self).vars_spec().last().1, value.datum()),
    {
        let v = value.to_value(Serializer::new(), st);
        self.vars.push((name.to_owned(), v.into_inner()));
        proof {
            assert(final(self).vars_spec() =~= old(self).vars_spec().push((name@, v@)));
            assert forall|i: int|
                0 <= i < self.vars_spec().len() implies raw_valid(
                st@,
                (#[trigger] self.vars_spec()[i]).1,
            ) by {
                if i < old(self).vars_spec().len() {
                    crate::state::lemma_raw_valid_preserved(
                        old(st)@,
                        st@,
                        old(self).vars_spec()[i].1,
                    );
                }
            }
            assert forall|i: int|
                0 <= i < self.consts_spec().len() implies raw_valid(
                st@,
                (#[trigger] self.consts_spec()[i]).1,
            ) by {
                crate::state::lemma_raw_valid_preserved(old(st)@, st@, old(self).consts_spec()[i].1);
            }
        }
    }
}

} // verus!
