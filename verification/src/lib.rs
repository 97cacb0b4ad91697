//! A bidirectional marshaling layer between strongly-typed host data and
//! the dynamically-typed value model of an embedded scripting runtime.
//!
//! Host values travel one way through [`ser::ToValue`] into runtime-owned
//! dynamic [`Value`]s, and back through [`de::FromValue`], which either
//! reconstructs the host value or fails with a structured
//! [`de::CastError`]. A [`state::State`] is the runtime session that owns
//! every dynamic value in play; [`Mruby`] wraps one session and offers the
//! global-variable gateway the two directions meet at.

pub mod class;
pub mod de;
pub mod laws;
pub mod object;
pub mod ser;
pub mod state;
pub mod symbol;
pub mod value;

pub use crate::value::Value;

use vstd::prelude::*;

use crate::de::{CastError, Deserializer, FromValue};
use crate::ser::{Serializer, ToValue};
use crate::state::{denotes, global_get, State, StateM};

verus! {

/// A failure of the runtime session itself; such a failure is fatal to
/// the session, unlike the recoverable cast errors.
#[derive(Debug)]
pub enum Error {
    Init,
}

/// An owned runtime session: the scripting engine instance every dynamic
/// value produced or consumed by this layer belongs to.
#[derive(Debug)]
pub struct Mruby {
    state: State,
}

impl View for Mruby {
    type V = StateM;

    closed spec fn view(&self) -> StateM {
        self.state@
    }
}

impl Mruby {
    /// Open a fresh session: empty arenas, no globals.
    pub fn new() -> (r: Result<Mruby, Error>)
        ensures
            r matches Ok(m) && {
                &&& m@.inv()
                &&& m@.symbols.len() == 0
                &&& m@.strings.len() == 0
                &&& m@.arrays.len() == 0
                &&& m@.hashes.len() == 0
                &&& m@.globals.len() == 0
            },
    {
        Ok(Mruby { state: State::new() })
    }

    /// Serialize a host value and bind it to a global variable of the
    /// session, replacing any prior binding of that name.
    pub fn register_global<V: ToValue>(&mut self, name: &str, global: &V)
        requires
            old(self)@.inv(),
        ensures
            final(self)@.inv(),
            old(self)@.preserved_in(final(self)@),
            denotes(final(self)@, global_get(final(self)@, name@), global.datum()),
            forall|other: Seq<char>|
                other != name@ ==> #[trigger] global_get(final(self)@, other) == global_get(
                    old(self)@,
                    other,
                ),
    {
        let ser = Serializer::new();
        let value = global.to_value(ser, &mut self.state);
        let ghost s1 = self.state@;
        self.state.gv_set(name, value.into_inner());
        proof {
            crate::state::lemma_denotes_preserved(s1, self.state@, value@, global.datum());
            crate::state::lemma_preserved_trans(old(self)@, s1, self.state@);
        }
    }

    /// Read a global variable of the session back as a host value; a
    /// name never bound reads as nil. The result is exactly what the
    /// target type's extraction says of the bound value.
    pub fn get_global<V: FromValue>(&mut self, name: &str) -> (r: Result<V, CastError>)
        requires
            old(self)@.inv(),
        ensures
            final(self)@.inv(),
            old(self)@.preserved_in(final(self)@),
            match r {
                Ok(x) => V::de_spec(old(self)@, global_get(old(self)@, name@)) == Ok::<
                    _,
                    de::ErrModel,
                >(x.datum()),
                Err(e) => V::de_spec(old(self)@, global_get(old(self)@, name@)) == Err::<
                    value::Datum,
                    _,
                >(e@),
            },
    {
        let raw = self.state.gv_get(name);
        let de = Deserializer::new(Value::from_raw(raw));
        V::from_value(de, &mut self.state)
    }
}

} // verus!
