//! Handles to runtime-owned dynamic values, and the abstract data they
//! stand for.

use vstd::prelude::*;

verus! {

/// Tag-and-payload representation of a runtime-owned dynamic value.
///
/// A `RawValue` is a lightweight, copyable handle: immediate kinds carry
/// their payload directly, while strings, symbols, arrays and hashes carry
/// an index into the arenas of the [`crate::state::State`] that produced
/// them. A handle never owns runtime memory and is meaningful only together
/// with its session.
///
/// Only the kinds that the marshaling paths produce and consume carry a
/// payload here. The remaining tags (`Float`, `Object`, `Exception`) are
/// recognized for introspection only; in particular this build compiles
/// float support out, so a float's content is not modeled at all.
#[derive(Clone, Copy, Debug, PartialEq, Eq, Structural)]
pub enum RawValue {
    Nil,
    Undef,
    Bool(bool),
    Int(i64),
    Str(usize),
    Sym(usize),
    Ary(usize),
    Hash(usize),
    Float,
    Object,
    Exception,
}

/// An opaque, copyable reference to a runtime-owned tagged value.
///
/// Valid only for the lifetime of the runtime session that produced it;
/// the session's memory manager, never this layer, reclaims the underlying
/// storage.
#[derive(Clone, Copy, Debug, PartialEq, Eq, Structural)]
pub struct Value(pub(crate) RawValue);

impl View for Value {
    type V = RawValue;

    closed spec fn view(&self) -> RawValue {
        self.0
    }
}

impl Value {
    /// Wrap a raw representation coming back from a runtime primitive.
    pub(crate) fn from_raw(raw: RawValue) -> (v: Value)
        ensures
            v@ == raw,
    {
        Value(raw)
    }

    /// Borrow the underlying tagged representation.
    pub fn get_ref(&self) -> (r: &RawValue)
        ensures
            *r == self@,
    {
        &self.0
    }

    /// Unwrap the underlying tagged representation.
    pub fn into_inner(self) -> (r: RawValue)
        ensures
            r == self@,
    {
        self.0
    }

    /// The tag determines which extraction operations may succeed.
    pub fn is_array(&self) -> (r: bool)
        ensures
            r == (self@ is Ary),
    {
        matches!(self.0, RawValue::Ary(_))
    }

    pub fn is_bool(&self) -> (r: bool)
        ensures
            r == (self@ is Bool),
    {
        matches!(self.0, RawValue::Bool(_))
    }

    pub fn is_exception(&self) -> (r: bool)
        ensures
            r == (self@ is Exception),
    {
        matches!(self.0, RawValue::Exception)
    }

    pub fn is_fixnum(&self) -> (r: bool)
        ensures
            r == (self@ is Int),
    {
        matches!(self.0, RawValue::Int(_))
    }

    pub fn is_float(&self) -> (r: bool)
        ensures
            r == (self@ is Float),
    {
        matches!(self.0, RawValue::Float)
    }

    pub fn is_nil(&self) -> (r: bool)
        ensures
            r == (self@ is Nil),
    {
        matches!(self.0, RawValue::Nil)
    }

    pub fn is_object(&self) -> (r: bool)
        ensures
            r == (self@ is Object),
    {
        matches!(self.0, RawValue::Object)
    }

    pub fn is_hash(&self) -> (r: bool)
        ensures
            r == (self@ is Hash),
    {
        matches!(self.0, RawValue::Hash(_))
    }

    pub fn is_string(&self) -> (r: bool)
        ensures
            r == (self@ is Str),
    {
        matches!(self.0, RawValue::Str(_))
    }

    pub fn is_symbol(&self) -> (r: bool)
        ensures
            r == (self@ is Sym),
    {
        matches!(self.0, RawValue::Sym(_))
    }

    pub fn is_undef(&self) -> (r: bool)
        ensures
            r == (self@ is Undef),
    {
        matches!(self.0, RawValue::Undef)
    }
}

/// The mathematical content of a marshaled value, independent of any
/// session: what a handle stands for once every arena index is chased.
///
/// `Ary` and `Hash` carry the contents of the runtime containers; a hash is
/// a pair of parallel key and value columns, kept in insertion order.
pub enum Datum {
    Nil,
    Undef,
    Bool(bool),
    Int(i64),
    Str(Seq<char>),
    Sym(Seq<char>),
    Ary(Seq<Datum>),
    Hash(Seq<Datum>, Seq<Datum>),
}

/// The capability that ties a convertible host type to the datum it
/// marshals to. Both conversion directions speak about this model.
pub trait ValueModel {
    /// The abstract datum this host value corresponds to.
    spec fn datum(&self) -> Datum;
}

} // verus!
