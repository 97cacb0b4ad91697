//! Serialization: the capability contract that turns host values into
//! runtime-owned dynamic values, and its implementations for the
//! built-in host types.

pub mod serializer;

pub use serializer::ArraySerializer;
pub use serializer::Serializer;

use std::collections::VecDeque;

use vstd::prelude::*;

use crate::state::{denotes, raw_valid, State};
use crate::symbol::Symbol;
use crate::value::{Datum, RawValue, Value, ValueModel};

verus! {

/// The serialization capability: a host value that can become a dynamic
/// value owned by the runtime session.
///
/// Every implementation leaves the session well formed, never disturbs
/// existing arena entries, and returns a valid handle standing for
/// exactly the host value's datum.
pub trait ToValue: ValueModel {
    fn to_value(&self, ser: Serializer, st: &mut State) -> (v: Value)
        requires
            old(st)@.inv(),
        ensures
            final(st)@.inv(),
            old(st)@.preserved_in(final(st)@),
            final(st)@.globals == old(st)@.globals,
            raw_valid(final(st)@, v@),
            denotes(final(st)@, v@, self.datum()),
    ;
}

impl ValueModel for Symbol {
    open spec fn datum(&self) -> Datum {
        Datum::Sym(self@)
    }
}

impl ToValue for Symbol {
    fn to_value(&self, ser: Serializer, st: &mut State) -> (v: Value) {
        ser.serialize_symbol(st, self)
    }
}

impl ValueModel for () {
    open spec fn datum(&self) -> Datum {
        Datum::Undef
    }
}

impl ToValue for () {
    fn to_value(&self, ser: Serializer, st: &mut State) -> (v: Value)
        ensures
            final(st)@ == old(st)@,
            v@ == RawValue::Undef,
    {
        ser.serialize_undef()
    }
}

impl ValueModel for bool {
    open spec fn datum(&self) -> Datum {
        Datum::Bool(*self)
    }
}

impl ToValue for bool {
    fn to_value(&self, ser: Serializer, st: &mut State) -> (v: Value)
        ensures
            final(st)@ == old(st)@,
            v@ == RawValue::Bool(*self),
    {
        ser.serialize_bool(*self)
    }
}

impl ValueModel for char {
    open spec fn datum(&self) -> Datum {
        Datum::Str(seq![*self])
    }
}

impl ToValue for char {
    fn to_value(&self, ser: Serializer, st: &mut State) -> (v: Value) {
        ser.serialize_char(st, *self)
    }
}

impl ValueModel for i8 {
    open spec fn datum(&self) -> Datum {
        Datum::Int(*self as i64)
    }
}

impl ToValue for i8 {
    fn to_value(&self, ser: Serializer, st: &mut State) -> (v: Value)
        ensures
            final(st)@ == old(st)@,
            v@ == RawValue::Int(*self as i64),
    {
        ser.serialize_integer(*self as i64)
    }
}

impl ValueModel for i32 {
    open spec fn datum(&self) -> Datum {
        Datum::Int(*self as i64)
    }
}

impl ToValue for i32 {
    fn to_value(&self, ser: Serializer, st: &mut State) -> (v: Value)
        ensures
            final(st)@ == old(st)@,
            v@ == RawValue::Int(*self as i64),
    {
        ser.serialize_integer(*self as i64)
    }
}

impl ValueModel for i64 {
    open spec fn datum(&self) -> Datum {
        Datum::Int(*self)
    }
}

impl ToValue for i64 {
    fn to_value(&self, ser: Serializer, st: &mut State) -> (v: Value)
        ensures
            final(st)@ == old(st)@,
            v@ == RawValue::Int(*self),
    {
        ser.serialize_integer(*self)
    }
}

impl ValueModel for isize {
    open spec fn datum(&self) -> Datum {
        Datum::Int(*self as i64)
    }
}

impl ToValue for isize {
    fn to_value(&self, ser: Serializer, st: &mut State) -> (v: Value)
        ensures
            final(st)@ == old(st)@,
            v@ == RawValue::Int(*self as i64),
    {
        ser.serialize_integer(*self as i64)
    }
}

impl ValueModel for u8 {
    open spec fn datum(&self) -> Datum {
        Datum::Int(*self as i64)
    }
}

impl ToValue for u8 {
    fn to_value(&self, ser: Serializer, st: &mut State) -> (v: Value)
        ensures
            final(st)@ == old(st)@,
            v@ == RawValue::Int(*self as i64),
    {
        ser.serialize_integer(*self as i64)
    }
}

impl ValueModel for u32 {
    open spec fn datum(&self) -> Datum {
        Datum::Int(*self as i64)
    }
}

impl ToValue for u32 {
    fn to_value(&self, ser: Serializer, st: &mut State) -> (v: Value)
        ensures
            final(st)@ == old(st)@,
            v@ == RawValue::Int(*self as i64),
    {
        ser.serialize_integer(*self as i64)
    }
}

impl ValueModel for u64 {
    open spec fn datum(&self) -> Datum {
        Datum::Int(*self as i64)
    }
}

impl ToValue for u64 {
    /// The value wraps through the runtime-native signed width, as the
    /// datum records; a value above the signed maximum comes back
    /// negative.
    fn to_value(&self, ser: Serializer, st: &mut State) -> (v: Value)
        ensures
            final(st)@ == old(st)@,
            v@ == RawValue::Int(*self as i64),
    {
        ser.serialize_integer(#[verifier::truncate] (*self as i64))
    }
}

impl ValueModel for usize {
    open spec fn datum(&self) -> Datum {
        Datum::Int(*self as i64)
    }
}

impl ToValue for usize {
    /// The value wraps through the runtime-native signed width, as the
    /// datum records; a value above the signed maximum comes back
    /// negative.
    fn to_value(&self, ser: Serializer, st: &mut State) -> (v: Value)
        ensures
            final(st)@ == old(st)@,
            v@ == RawValue::Int(*self as i64),
    {
        ser.serialize_integer(#[verifier::truncate] (*self as i64))
    }
}

impl ValueModel for str {
    open spec fn datum(&self) -> Datum {
        Datum::Str(self@)
    }
}

impl ToValue for str {
    fn to_value(&self, ser: Serializer, st: &mut State) -> (v: Value) {
        ser.serialize_string(st, self)
    }
}

impl ValueModel for String {
    open spec fn datum(&self) -> Datum {
        Datum::Str(self@)
    }
}

impl ToValue for String {
    fn to_value(&self, ser: Serializer, st: &mut State) -> (v: Value) {
        ser.serialize_string(st, self.as_str())
    }
}

impl<T: ValueModel> ValueModel for Option<T> {
    open spec fn datum(&self) -> Datum {
        match self {
            Some(inner) => inner.datum(),
            None => Datum::Nil,
        }
    }
}

impl<T: ToValue> ToValue for Option<T> {
    fn to_value(&self, ser: Serializer, st: &mut State) -> (v: Value) {
        match self {
            Some(inner) => inner.to_value(ser, st),
            None => ser.serialize_nil(),
        }
    }
}

impl<T: ValueModel> ValueModel for Box<T> {
    open spec fn datum(&self) -> Datum {
        (**self).datum()
    }
}

impl<T: ToValue> ToValue for Box<T> {
    fn to_value(&self, ser: Serializer, st: &mut State) -> (v: Value) {
        (**self).to_value(ser, st)
    }
}

impl<T: ValueModel> ValueModel for Vec<T> {
    open spec fn datum(&self) -> Datum {
        Datum::Ary(Seq::new(self@.len(), |i: int| self@[i].datum()))
    }
}

impl<T: ToValue> ToValue for Vec<T> {
    fn to_value(&self, ser: Serializer, st: &mut State) -> (v: Value) {
        let r = ser.serialize_array(st, self);
        proof {
            assert(serializer::data_of(self@) =~= Seq::new(self@.len(), |i: int| self@[i].datum()));
        }
        r
    }
}

impl<T: ValueModel + ?Sized> ValueModel for &T {
    open spec fn datum(&self) -> Datum {
        (**self).datum()
    }
}

impl<T: ToValue + ?Sized> ToValue for &T {
    fn to_value(&self, ser: Serializer, st: &mut State) -> (v: Value) {
        (**self).to_value(ser, st)
    }
}

impl<T: ValueModel> ValueModel for std::rc::Rc<T> {
    open spec fn datum(&self) -> Datum {
        (**self).datum()
    }
}

impl<T: ToValue> ToValue for std::rc::Rc<T> {
    fn to_value(&self, ser: Serializer, st: &mut State) -> (v: Value) {
        (**self).to_value(ser, st)
    }
}

impl<T: ValueModel> ValueModel for std::sync::Arc<T> {
    open spec fn datum(&self) -> Datum {
        (**self).datum()
    }
}

impl<T: ToValue> ToValue for std::sync::Arc<T> {
    fn to_value(&self, ser: Serializer, st: &mut State) -> (v: Value) {
        (**self).to_value(ser, st)
    }
}


impl<T: ValueModel, const N: usize> ValueModel for [T; N] {
    open spec fn datum(&self) -> Datum {
        Datum::Ary(Seq::new(self@.len(), |i: int| self@[i].datum()))
    }
}

impl<T: ToValue, const N: usize> ToValue for [T; N] {
    fn to_value(&self, ser: Serializer, st: &mut State) -> (v: Value) {
        let r = ser.serialize_array_slice(st, self.as_slice());
        proof {
            assert(serializer::data_of(self@) =~= Seq::new(self@.len(), |i: int| self@[i].datum()));
        }
        r
    }
}


impl<T: ValueModel> ValueModel for VecDeque<T> {
    open spec fn datum(&self) -> Datum {
        Datum::Ary(Seq::new(self@.len(), |i: int| self@[i].datum()))
    }
}

impl<T: ToValue> ToValue for VecDeque<T> {
    fn to_value(&self, ser: Serializer, st: &mut State) -> (v: Value) {
        let mut refs: Vec<&T> = Vec::new();
        let n = self.len();
        for k in 0..n
            invariant
                n == self@.len(),
                refs@.len() == k,
                forall|j: int| 0 <= j < k ==> refs@[j] == self@[j],
        {
            refs.push(&self[k]);
        }
        let r = ser.serialize_array(st, &refs);
        proof {
            assert(serializer::data_of(refs@) =~= Seq::new(self@.len(), |i: int| self@[i].datum()));
        }
        r
    }
}

impl<A: ValueModel> ValueModel for (A,) {
    open spec fn datum(&self) -> Datum {
        Datum::Ary(seq![self.0.datum()])
    }
}

impl<A: ToValue> ToValue for (A,) {
    fn to_value(&self, ser: Serializer, st: &mut State) -> (v: Value) {
        let b = ser.serialize_array_hetero().next_element(st, &self.0);
        let v = b.finish(st);
        proof {
            assert(Seq::<Datum>::empty().push(self.0.datum()) =~= seq![self.0.datum()]);
        }
        v
    }
}

impl<A: ValueModel, B: ValueModel> ValueModel for (A, B) {
    open spec fn datum(&self) -> Datum {
        Datum::Ary(seq![self.0.datum(), self.1.datum()])
    }
}

impl<A: ToValue, B: ToValue> ToValue for (A, B) {
    fn to_value(&self, ser: Serializer, st: &mut State) -> (v: Value) {
        let b = ser.serialize_array_hetero().next_element(st, &self.0).next_element(st, &self.1);
        let v = b.finish(st);
        proof {
            assert(Seq::<Datum>::empty().push(self.0.datum()).push(self.1.datum()) =~= seq![
                self.0.datum(),
                self.1.datum(),
            ]);
        }
        v
    }
}

impl<A: ValueModel, B: ValueModel, C: ValueModel> ValueModel for (A, B, C) {
    open spec fn datum(&self) -> Datum {
        Datum::Ary(seq![self.0.datum(), self.1.datum(), self.2.datum()])
    }
}

impl<A: ToValue, B: ToValue, C: ToValue> ToValue for (A, B, C) {
    fn to_value(&self, ser: Serializer, st: &mut State) -> (v: Value) {
        let b = ser.serialize_array_hetero().next_element(st, &self.0).next_element(
            st,
            &self.1,
        ).next_element(st, &self.2);
        let v = b.finish(st);
        proof {
            assert(Seq::<Datum>::empty().push(self.0.datum()).push(self.1.datum()).push(
                self.2.datum(),
            ) =~= seq![self.0.datum(), self.1.datum(), self.2.datum()]);
        }
        v
    }
}

impl<A: ValueModel, B: ValueModel, C: ValueModel, D: ValueModel> ValueModel for (A, B, C, D) {
    open spec fn datum(&self) -> Datum {
        Datum::Ary(seq![self.0.datum(), self.1.datum(), self.2.datum(), self.3.datum()])
    }
}

impl<A: ToValue, B: ToValue, C: ToValue, D: ToValue> ToValue for (A, B, C, D) {
    fn to_value(&self, ser: Serializer, st: &mut State) -> (v: Value) {
        let b = ser.serialize_array_hetero().next_element(st, &self.0).next_element(
            st,
            &self.1,
        ).next_element(st, &self.2).next_element(st, &self.3);
        let v = b.finish(st);
        proof {
            assert(Seq::<Datum>::empty().push(self.0.datum()).push(self.1.datum()).push(
                self.2.datum(),
            ).push(self.3.datum()) =~= seq![
                self.0.datum(),
                self.1.datum(),
                self.2.datum(),
                self.3.datum(),
            ]);
        }
        v
    }
}


impl<A: ValueModel, B: ValueModel, C: ValueModel, D: ValueModel, E: ValueModel> ValueModel for (A, B, C, D, E) {
    open spec fn datum(&self) -> Datum {
        Datum::Ary(seq![self.0.datum(), self.1.datum(), self.2.datum(), self.3.datum(), self.4.datum()])
    }
}

impl<A: ToValue, B: ToValue, C: ToValue, D: ToValue, E: ToValue> ToValue for (A, B, C, D, E) {
    fn to_value(&self, ser: Serializer, st: &mut State) -> (v: Value) {
        let b = ser.serialize_array_hetero().next_element(st, &self.0).next_element(
            st,
            &self.1,
        ).next_element(
            st,
            &self.2,
        ).next_element(
            st,
            &self.3,
        ).next_element(
            st,
            &self.4,
        );
        let v = b.finish(st);
        proof {
            assert(Seq::<Datum>::empty().push(self.0.datum()).push(self.1.datum()).push(self.2.datum()).push(self.3.datum()).push(self.4.datum()) =~= seq![self.0.datum(), self.1.datum(), self.2.datum(), self.3.datum(), self.4.datum()]);
        }
        v
    }
}

impl<A: ValueModel, B: ValueModel, C: ValueModel, D: ValueModel, E: ValueModel, F: ValueModel> ValueModel for (A, B, C, D, E, F) {
    open spec fn datum(&self) -> Datum {
        Datum::Ary(seq![self.0.datum(), self.1.datum(), self.2.datum(), self.3.datum(), self.4.datum(), self.5.datum()])
    }
}

impl<A: ToValue, B: ToValue, C: ToValue, D: ToValue, E: ToValue, F: ToValue> ToValue for (A, B, C, D, E, F) {
    fn to_value(&self, ser: Serializer, st: &mut State) -> (v: Value) {
        let b = ser.serialize_array_hetero().next_element(st, &self.0).next_element(
            st,
            &self.1,
        ).next_element(
            st,
            &self.2,
        ).next_element(
            st,
            &self.3,
        ).next_element(
            st,
            &self.4,
        ).next_element(
            st,
            &self.5,
        );
        let v = b.finish(st);
        proof {
            assert(Seq::<Datum>::empty().push(self.0.datum()).push(self.1.datum()).push(self.2.datum()).push(self.3.datum()).push(self.4.datum()).push(self.5.datum()) =~= seq![self.0.datum(), self.1.datum(), self.2.datum(), self.3.datum(), self.4.datum(), self.5.datum()]);
        }
        v
    }
}


impl<A: ValueModel, B: ValueModel, C: ValueModel, D: ValueModel, E: ValueModel, F: ValueModel, G: ValueModel> ValueModel for (A, B, C, D, E, F, G) {
    open spec fn datum(&self) -> Datum {
        Datum::Ary(seq![self.0.datum(), self.1.datum(), self.2.datum(), self.3.datum(), self.4.datum(), self.5.datum(), self.6.datum()])
    }
}

impl<A: ToValue, B: ToValue, C: ToValue, D: ToValue, E: ToValue, F: ToValue, G: ToValue> ToValue for (A, B, C, D, E, F, G) {
    fn to_value(&self, ser: Serializer, st: &mut State) -> (v: Value) {
        let b = ser.serialize_array_hetero().next_element(st, &self.0).next_element(
            st,
            &self.1,
        ).next_element(
            st,
            &self.2,
        ).next_element(
            st,
            &self.3,
        ).next_element(
            st,
            &self.4,
        ).next_element(
            st,
            &self.5,
        ).next_element(
            st,
            &self.6,
        );
        let v = b.finish(st);
        proof {
            assert(Seq::<Datum>::empty().push(self.0.datum()).push(self.1.datum()).push(self.2.datum()).push(self.3.datum()).push(self.4.datum()).push(self.5.datum()).push(self.6.datum()) =~= seq![self.0.datum(), self.1.datum(), self.2.datum(), self.3.datum(), self.4.datum(), self.5.datum(), self.6.datum()]);
        }
        v
    }
}

impl<A: ValueModel, B: ValueModel, C: ValueModel, D: ValueModel, E: ValueModel, F: ValueModel, G: ValueModel, H: ValueModel> ValueModel for (A, B, C, D, E, F, G, H) {
    open spec fn datum(&self) -> Datum {
        Datum::Ary(seq![self.0.datum(), self.1.datum(), self.2.datum(), self.3.datum(), self.4.datum(), self.5.datum(), self.6.datum(), self.7.datum()])
    }
}

impl<A: ToValue, B: ToValue, C: ToValue, D: ToValue, E: ToValue, F: ToValue, G: ToValue, H: ToValue> ToValue for (A, B, C, D, E, F, G, H) {
    fn to_value(&self, ser: Serializer, st: &mut State) -> (v: Value) {
        let b = ser.serialize_array_hetero().next_element(st, &self.0).next_element(
            st,
            &self.1,
        ).next_element(
            st,
            &self.2,
        ).next_element(
            st,
            &self.3,
        ).next_element(
            st,
            &self.4,
        ).next_element(
            st,
            &self.5,
        ).next_element(
            st,
            &self.6,
        ).next_element(
            st,
            &self.7,
        );
        let v = b.finish(st);
        proof {
            assert(Seq::<Datum>::empty().push(self.0.datum()).push(self.1.datum()).push(self.2.datum()).push(self.3.datum()).push(self.4.datum()).push(self.5.datum()).push(self.6.datum()).push(self.7.datum()) =~= seq![self.0.datum(), self.1.datum(), self.2.datum(), self.3.datum(), self.4.datum(), self.5.datum(), self.6.datum(), self.7.datum()]);
        }
        v
    }
}

impl<A: ValueModel, B: ValueModel, C: ValueModel, D: ValueModel, E: ValueModel, F: ValueModel, G: ValueModel, H: ValueModel, I: ValueModel> ValueModel for (A, B, C, D, E, F, G, H, I) {
    open spec fn datum(&self) -> Datum {
        Datum::Ary(seq![self.0.datum(), self.1.datum(), self.2.datum(), self.3.datum(), self.4.datum(), self.5.datum(), self.6.datum(), self.7.datum(), self.8.datum()])
    }
}

impl<A: ToValue, B: ToValue, C: ToValue, D: ToValue, E: ToValue, F: ToValue, G: ToValue, H: ToValue, I: ToValue> ToValue for (A, B, C, D, E, F, G, H, I) {
    fn to_value(&self, ser: Serializer, st: &mut State) -> (v: Value) {
        let b = ser.serialize_array_hetero().next_element(st, &self.0).next_element(
            st,
            &self.1,
        ).next_element(
            st,
            &self.2,
        ).next_element(
            st,
            &self.3,
        ).next_element(
            st,
            &self.4,
        ).next_element(
            st,
            &self.5,
        ).next_element(
            st,
            &self.6,
        ).next_element(
            st,
            &self.7,
        ).next_element(
            st,
            &self.8,
        );
        let v = b.finish(st);
        proof {
            assert(Seq::<Datum>::empty().push(self.0.datum()).push(self.1.datum()).push(self.2.datum()).push(self.3.datum()).push(self.4.datum()).push(self.5.datum()).push(self.6.datum()).push(self.7.datum()).push(self.8.datum()) =~= seq![self.0.datum(), self.1.datum(), self.2.datum(), self.3.datum(), self.4.datum(), self.5.datum(), self.6.datum(), self.7.datum(), self.8.datum()]);
        }
        v
    }
}

impl<A: ValueModel, B: ValueModel, C: ValueModel, D: ValueModel, E: ValueModel, F: ValueModel, G: ValueModel, H: ValueModel, I: ValueModel, J: ValueModel> ValueModel for (A, B, C, D, E, F, G, H, I, J) {
    open spec fn datum(&self) -> Datum {
        Datum::Ary(seq![self.0.datum(), self.1.datum(), self.2.datum(), self.3.datum(), self.4.datum(), self.5.datum(), self.6.datum(), self.7.datum(), self.8.datum(), self.9.datum()])
    }
}

impl<A: ToValue, B: ToValue, C: ToValue, D: ToValue, E: ToValue, F: ToValue, G: ToValue, H: ToValue, I: ToValue, J: ToValue> ToValue for (A, B, C, D, E, F, G, H, I, J) {
    fn to_value(&self, ser: Serializer, st: &mut State) -> (v: Value) {
        let b = ser.serialize_array_hetero().next_element(st, &self.0).next_element(
            st,
            &self.1,
        ).next_element(
            st,
            &self.2,
        ).next_element(
            st,
            &self.3,
        ).next_element(
            st,
            &self.4,
        ).next_element(
            st,
            &self.5,
        ).next_element(
            st,
            &self.6,
        ).next_element(
            st,
            &self.7,
        ).next_element(
            st,
            &self.8,
        ).next_element(
            st,
            &self.9,
        );
        let v = b.finish(st);
        proof {
            assert(Seq::<Datum>::empty().push(self.0.datum()).push(self.1.datum()).push(self.2.datum()).push(self.3.datum()).push(self.4.datum()).push(self.5.datum()).push(self.6.datum()).push(self.7.datum()).push(self.8.datum()).push(self.9.datum()) =~= seq![self.0.datum(), self.1.datum(), self.2.datum(), self.3.datum(), self.4.datum(), self.5.datum(), self.6.datum(), self.7.datum(), self.8.datum(), self.9.datum()]);
        }
        v
    }
}

impl<A: ValueModel, B: ValueModel, C: ValueModel, D: ValueModel, E: ValueModel, F: ValueModel, G: ValueModel, H: ValueModel, I: ValueModel, J: ValueModel, K: ValueModel> ValueModel for (A, B, C, D, E, F, G, H, I, J, K) {
    open spec fn datum(&self) -> Datum {
        Datum::Ary(seq![self.0.datum(), self.1.datum(), self.2.datum(), self.3.datum(), self.4.datum(), self.5.datum(), self.6.datum(), self.7.datum(), self.8.datum(), self.9.datum(), self.10.datum()])
    }
}

impl<A: ToValue, B: ToValue, C: ToValue, D: ToValue, E: ToValue, F: ToValue, G: ToValue, H: ToValue, I: ToValue, J: ToValue, K: ToValue> ToValue for (A, B, C, D, E, F, G, H, I, J, K) {
    fn to_value(&self, ser: Serializer, st: &mut State) -> (v: Value) {
        let b = ser.serialize_array_hetero().next_element(st, &self.0).next_element(
            st,
            &self.1,
        ).next_element(
            st,
            &self.2,
        ).next_element(
            st,
            &self.3,
        ).next_element(
            st,
            &self.4,
        ).next_element(
            st,
            &self.5,
        ).next_element(
            st,
            &self.6,
        ).next_element(
            st,
            &self.7,
        ).next_element(
            st,
            &self.8,
        ).next_element(
            st,
            &self.9,
        ).next_element(
            st,
            &self.10,
        );
        let v = b.finish(st);
        proof {
            assert(Seq::<Datum>::empty().push(self.0.datum()).push(self.1.datum()).push(self.2.datum()).push(self.3.datum()).push(self.4.datum()).push(self.5.datum()).push(self.6.datum()).push(self.7.datum()).push(self.8.datum()).push(self.9.datum()).push(self.10.datum()) =~= seq![self.0.datum(), self.1.datum(), self.2.datum(), self.3.datum(), self.4.datum(), self.5.datum(), self.6.datum(), self.7.datum(), self.8.datum(), self.9.datum(), self.10.datum()]);
        }
        v
    }
}

impl<A: ValueModel, B: ValueModel, C: ValueModel, D: ValueModel, E: ValueModel, F: ValueModel, G: ValueModel, H: ValueModel, I: ValueModel, J: ValueModel, K: ValueModel, L: ValueModel> ValueModel for (A, B, C, D, E, F, G, H, I, J, K, L) {
    open spec fn datum(&self) -> Datum {
        Datum::Ary(seq![self.0.datum(), self.1.datum(), self.2.datum(), self.3.datum(), self.4.datum(), self.5.datum(), self.6.datum(), self.7.datum(), self.8.datum(), self.9.datum(), self.10.datum(), self.11.datum()])
    }
}

impl<A: ToValue, B: ToValue, C: ToValue, D: ToValue, E: ToValue, F: ToValue, G: ToValue, H: ToValue, I: ToValue, J: ToValue, K: ToValue, L: ToValue> ToValue for (A, B, C, D, E, F, G, H, I, J, K, L) {
    fn to_value(&self, ser: Serializer, st: &mut State) -> (v: Value) {
        let b = ser.serialize_array_hetero().next_element(st, &self.0).next_element(
            st,
            &self.1,
        ).next_element(
            st,
            &self.2,
        ).next_element(
            st,
            &self.3,
        ).next_element(
            st,
            &self.4,
        ).next_element(
            st,
            &self.5,
        ).next_element(
            st,
            &self.6,
        ).next_element(
            st,
            &self.7,
        ).next_element(
            st,
            &self.8,
        ).next_element(
            st,
            &self.9,
        ).next_element(
            st,
            &self.10,
        ).next_element(
            st,
            &self.11,
        );
        let v = b.finish(st);
        proof {
            assert(Seq::<Datum>::empty().push(self.0.datum()).push(self.1.datum()).push(self.2.datum()).push(self.3.datum()).push(self.4.datum()).push(self.5.datum()).push(self.6.datum()).push(self.7.datum()).push(self.8.datum()).push(self.9.datum()).push(self.10.datum()).push(self.11.datum()) =~= seq![self.0.datum(), self.1.datum(), self.2.datum(), self.3.datum(), self.4.datum(), self.5.datum(), self.6.datum(), self.7.datum(), self.8.datum(), self.9.datum(), self.10.datum(), self.11.datum()]);
        }
        v
    }
}

impl<A: ValueModel, B: ValueModel, C: ValueModel, D: ValueModel, E: ValueModel, F: ValueModel, G: ValueModel, H: ValueModel, I: ValueModel, J: ValueModel, K: ValueModel, L: ValueModel, M: ValueModel> ValueModel for (A, B, C, D, E, F, G, H, I, J, K, L, M) {
    open spec fn datum(&self) -> Datum {
        Datum::Ary(seq![self.0.datum(), self.1.datum(), self.2.datum(), self.3.datum(), self.4.datum(), self.5.datum(), self.6.datum(), self.7.datum(), self.8.datum(), self.9.datum(), self.10.datum(), self.11.datum(), self.12.datum()])
    }
}

impl<A: ToValue, B: ToValue, C: ToValue, D: ToValue, E: ToValue, F: ToValue, G: ToValue, H: ToValue, I: ToValue, J: ToValue, K: ToValue, L: ToValue, M: ToValue> ToValue for (A, B, C, D, E, F, G, H, I, J, K, L, M) {
    fn to_value(&self, ser: Serializer, st: &mut State) -> (v: Value) {
        let b = ser.serialize_array_hetero().next_element(st, &self.0).next_element(
            st,
            &self.1,
        ).next_element(
            st,
            &self.2,
        ).next_element(
            st,
            &self.3,
        ).next_element(
            st,
            &self.4,
        ).next_element(
            st,
            &self.5,
        ).next_element(
            st,
            &self.6,
        ).next_element(
            st,
            &self.7,
        ).next_element(
            st,
            &self.8,
        ).next_element(
            st,
            &self.9,
        ).next_element(
            st,
            &self.10,
        ).next_element(
            st,
            &self.11,
        ).next_element(
            st,
            &self.12,
        );
        let v = b.finish(st);
        proof {
            assert(Seq::<Datum>::empty().push(self.0.datum()).push(self.1.datum()).push(self.2.datum()).push(self.3.datum()).push(self.4.datum()).push(self.5.datum()).push(self.6.datum()).push(self.7.datum()).push(self.8.datum()).push(self.9.datum()).push(self.10.datum()).push(self.11.datum()).push(self.12.datum()) =~= seq![self.0.datum(), self.1.datum(), self.2.datum(), self.3.datum(), self.4.datum(), self.5.datum(), self.6.datum(), self.7.datum(), self.8.datum(), self.9.datum(), self.10.datum(), self.11.datum(), self.12.datum()]);
        }
        v
    }
}

} // verus!
