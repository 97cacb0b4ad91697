//! Session-level behavior: opening sessions and the primitive value
//! kinds, exercised through the public conversion surface.

use mruby::de::FromValue;
use mruby::state::State;
use mruby::symbol::Symbol;
use mruby::Mruby;

#[test]
fn mrb_open_close() {
    let state = Mruby::new();
    assert!(state.is_ok());
}

#[test]
fn ext_ary_len() {
    let mut state = State::new();
    let elems: Vec<Option<i64>> = vec![None, None];
    let ser = state.serialize();
    let val = ser.serialize_array(&mut state, &elems);
    let de = state.deserialize(val);
    let len = de.deserialize_tuple(&state).len();
    assert_eq!(len, 2);
}

#[test]
fn ext_bool_value() {
    let mut state = State::new();
    let ser = state.serialize();
    let true_val = ser.serialize_bool(true);
    assert!(true_val.is_bool());

    let false_val = ser.serialize_bool(false);
    assert!(false_val.is_bool());
}

#[test]
fn ext_fixnum_to_cint() {
    let input = 42;
    let mut state = State::new();
    let ser = state.serialize();
    let fixnum = ser.serialize_integer(input);
    let output = state.deserialize(fixnum).deserialize_integer().unwrap();
    assert_eq!(input, output);
}

#[test]
fn ext_fixnum_value() {
    let input = 42;
    let mut state = State::new();
    let ser = state.serialize();
    let val = ser.serialize_integer(input);
    assert!(val.is_fixnum());
    assert_eq!(state.deserialize(val).deserialize_integer().unwrap(), input);
}

#[test]
fn ext_nil_value() {
    let mut state = State::new();
    let ser = state.serialize();
    let val = ser.serialize_nil();
    let is_nil = val.is_nil();
    assert_eq!(is_nil, true);

    let val = ser.serialize_integer(5);
    let is_nil = val.is_nil();
    assert_eq!(is_nil, false);
}

#[test]
fn ext_symbol_value() {
    let mut state = State::new();
    let ser = state.serialize();

    let input = Symbol::new("example");
    let val = ser.serialize_symbol(&mut state, &input);
    assert!(val.is_symbol());

    let again = ser.serialize_symbol(&mut state, &input);
    assert_eq!(val, again);

    let de = state.deserialize(val);
    let output: Symbol = de.deserialize_symbol(&state).unwrap();
    assert_eq!(input, output);
}

#[test]
fn ext_undef_value() {
    let mut state = State::new();
    let ser = state.serialize();
    let val = ser.serialize_undef();
    assert!(val.is_undef());
}

#[test]
fn global_round_trip() {
    let mut ruby = Mruby::new().unwrap();
    let input: (i64, String, bool) = (42, "first".to_string(), true);
    ruby.register_global("$example", &input);
    let output: (i64, String, bool) = ruby.get_global("$example").expect("Failed to deserialize");
    assert_eq!(input, output);
}

#[test]
fn global_unset_reads_as_nil() {
    let mut ruby = Mruby::new().unwrap();
    let missing: Option<i64> = ruby.get_global("$absent").unwrap();
    assert_eq!(missing, None);
}

#[test]
fn global_rebinding_replaces() {
    let mut ruby = Mruby::new().unwrap();
    ruby.register_global("$n", &1i64);
    ruby.register_global("$other", &7i64);
    ruby.register_global("$n", &2i64);
    let n: i64 = ruby.get_global("$n").unwrap();
    let other: i64 = ruby.get_global("$other").unwrap();
    assert_eq!(n, 2);
    assert_eq!(other, 7);
}

#[test]
fn raw_value_passthrough() {
    let mut state = State::new();
    let ser = state.serialize();
    let val = ser.serialize_string(&mut state, "keep");
    assert!(val.is_string());
    let inner = *val.get_ref();
    assert_eq!(val.into_inner(), inner);
    let text: String = String::from_value(state.deserialize(val), &mut state).unwrap();
    assert_eq!(text, "keep");
}
