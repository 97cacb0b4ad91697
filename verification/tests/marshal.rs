//! Round trips and failure shapes of the marshaling paths.

use std::collections::VecDeque;

use mruby::de::{CastError, FromValue};
use mruby::ser::ToValue;
use mruby::state::State;

#[test]
fn round_trip_integer() {
    let mut state = State::new();
    let ser = state.serialize();
    let val = ser.serialize_integer(42);
    assert!(val.is_fixnum());
    let back = i64::from_value(state.deserialize(val), &mut state).unwrap();
    assert_eq!(back, 42);
}

#[test]
fn round_trip_booleans() {
    let mut state = State::new();
    let ser = state.serialize();
    for b in [true, false] {
        let val = ser.serialize_bool(b);
        let back = bool::from_value(state.deserialize(val), &mut state).unwrap();
        assert_eq!(back, b);
    }
}

#[test]
fn round_trip_string() {
    let mut state = State::new();
    let ser = state.serialize();
    let val = ser.serialize_string(&mut state, "hello");
    assert!(val.is_string());
    let back = String::from_value(state.deserialize(val), &mut state).unwrap();
    assert_eq!(back, "hello");
}

#[test]
fn round_trip_char() {
    let mut state = State::new();
    let ser = state.serialize();
    let val = ser.serialize_char(&mut state, 'q');
    let back = char::from_value(state.deserialize(val), &mut state).unwrap();
    assert_eq!(back, 'q');
}

#[test]
fn option_some_is_not_wrapped() {
    let mut state = State::new();
    let input: Option<i64> = Some(3);
    let val = input.to_value(state.serialize(), &mut state);
    assert!(val.is_fixnum());
    let back: Option<i64> = Option::from_value(state.deserialize(val), &mut state).unwrap();
    assert_eq!(back, Some(3));
}

#[test]
fn option_none_is_nil() {
    let mut state = State::new();
    let input: Option<i32> = None;
    let val = input.to_value(state.serialize(), &mut state);
    assert!(val.is_nil());
    let back: Option<i32> = Option::from_value(state.deserialize(val), &mut state).unwrap();
    assert_eq!(back, None);
}

#[test]
fn unit_accepts_undef_and_nil() {
    let mut state = State::new();
    let ser = state.serialize();
    let undef = ser.serialize_undef();
    let nil = ser.serialize_nil();
    assert_eq!(state.deserialize(undef).deserialize_unit(), Ok(()));
    assert_eq!(state.deserialize(nil).deserialize_unit(), Ok(()));
    let num = ser.serialize_integer(1);
    assert!(state.deserialize(num).deserialize_unit().is_err());
}

#[test]
fn tuple_arity_mismatch() {
    let mut state = State::new();
    let input: (i64, String, bool) = (1, "x".to_string(), true);
    let val = input.to_value(state.serialize(), &mut state);
    let err = <(i64, String)>::from_value(state.deserialize(val), &mut state).unwrap_err();
    assert_eq!(err, CastError::Length(2, 3));
}

#[test]
fn tuple_matching_arity_preserves_order() {
    let mut state = State::new();
    let input: (i64, String, bool) = (1, "x".to_string(), true);
    let val = input.to_value(state.serialize(), &mut state);
    let back = <(i64, String, bool)>::from_value(state.deserialize(val), &mut state).unwrap();
    assert_eq!(back, (1, "x".to_string(), true));
}

#[test]
fn numeric_narrowing_overflow() {
    let mut state = State::new();
    let val = state.serialize().serialize_integer(300);
    let err = u8::from_value(state.deserialize(val), &mut state).unwrap_err();
    assert_eq!(err, CastError::NumericConversion(300, "u8"));
}

#[test]
fn numeric_narrowing_in_range() {
    let mut state = State::new();
    let val = state.serialize().serialize_integer(200);
    let back = u8::from_value(state.deserialize(val), &mut state).unwrap();
    assert_eq!(back, 200u8);
}

#[test]
fn unexpected_type_on_mismatched_tag() {
    let mut state = State::new();
    let val = state.serialize().serialize_integer(5);
    let err = bool::from_value(state.deserialize(val), &mut state).unwrap_err();
    assert_eq!(err, CastError::UnexpectedType("value is not a boolean".to_string()));
}

#[test]
fn char_rejects_empty_and_long_text() {
    let mut state = State::new();
    let ser = state.serialize();
    let empty = ser.serialize_string(&mut state, "");
    let err = char::from_value(state.deserialize(empty), &mut state).unwrap_err();
    assert_eq!(err, CastError::UnexpectedType("string value is empty".to_string()));

    let long = ser.serialize_string(&mut state, "ab");
    let err = char::from_value(state.deserialize(long), &mut state).unwrap_err();
    assert_eq!(err, CastError::UnexpectedType("value contains multiple chars".to_string()));
}

#[test]
fn char_rejects_symbol_text() {
    let mut state = State::new();
    let ser = state.serialize();
    let sym = ser.serialize_symbol(&mut state, "q");
    let err = char::from_value(state.deserialize(sym), &mut state).unwrap_err();
    assert_eq!(err, CastError::UnexpectedType("value is not a string".to_string()));
}

#[test]
fn sequence_round_trip() {
    let mut state = State::new();
    let input: Vec<i64> = vec![16, 17, 18];
    let val = input.to_value(state.serialize(), &mut state);
    assert!(val.is_array());
    let back: Vec<i64> = Vec::from_value(state.deserialize(val), &mut state).unwrap();
    assert_eq!(back, vec![16, 17, 18]);
}

#[test]
fn sequence_snapshot_halts_at_error() {
    let mut state = State::new();
    let input: (i64, String, i64) = (1, "x".to_string(), 3);
    let val = input.to_value(state.serialize(), &mut state);
    let de = state.deserialize(val);
    let mut iter = de.deserialize_seq::<i64>(&state);
    assert_eq!(iter.len(), 3);
    assert_eq!(iter.next(&mut state), Some(Ok(1)));
    assert!(matches!(iter.next(&mut state), Some(Err(_))));
    assert_eq!(iter.next(&mut state), None);
    assert_eq!(iter.len(), 3);
}

#[test]
fn map_round_trip() {
    let mut state = State::new();
    let entries: Vec<(String, i64)> = vec![("a".to_string(), 1), ("b".to_string(), 2)];
    let ser = state.serialize();
    let val = ser.serialize_hash(&mut state, &entries);
    assert!(val.is_hash());

    let de = state.deserialize(val);
    let mut iter = de.deserialize_map::<String, i64>(&mut state);
    assert_eq!(iter.len(), 2);
    let mut back: Vec<(String, i64)> = Vec::new();
    while let Some(entry) = iter.next(&mut state) {
        back.push(entry.unwrap());
    }
    assert_eq!(back, entries);
}

#[test]
fn map_repeated_key_keeps_one_entry() {
    let mut state = State::new();
    let entries: Vec<(String, i64)> = vec![
        ("a".to_string(), 1),
        ("a".to_string(), 9),
        ("b".to_string(), 2),
    ];
    let ser = state.serialize();
    let val = ser.serialize_hash(&mut state, &entries);
    let de = state.deserialize(val);
    let mut iter = de.deserialize_map::<String, i64>(&mut state);
    assert_eq!(iter.len(), 2);
    let mut back: Vec<(String, i64)> = Vec::new();
    while let Some(entry) = iter.next(&mut state) {
        back.push(entry.unwrap());
    }
    assert_eq!(back, vec![("a".to_string(), 9), ("b".to_string(), 2)]);
}

#[test]
fn fixed_array_round_trip() {
    let mut state = State::new();
    let input: [i64; 3] = [1, 2, 3];
    let val = input.to_value(state.serialize(), &mut state);
    assert!(val.is_array());
    let back: [i64; 3] = <[i64; 3]>::from_value(state.deserialize(val), &mut state).unwrap();
    assert_eq!(back, input);
}

#[test]
fn fixed_array_arity_mismatch() {
    let mut state = State::new();
    let input: [i64; 3] = [1, 2, 3];
    let val = input.to_value(state.serialize(), &mut state);
    let err = <[i64; 2]>::from_value(state.deserialize(val), &mut state).unwrap_err();
    assert_eq!(err, CastError::Length(2, 3));
}

#[test]
fn wide_tuple_round_trip() {
    let mut state = State::new();
    let input: (i64, bool, String, Option<i64>, char, u8) = (
        42,
        true,
        "first".to_string(),
        Some(64),
        'z',
        17,
    );
    let val = input.to_value(state.serialize(), &mut state);
    let back: (i64, bool, String, Option<i64>, char, u8) = <(
        i64,
        bool,
        String,
        Option<i64>,
        char,
        u8,
    )>::from_value(state.deserialize(val), &mut state)
        .unwrap();
    assert_eq!(back, input);
}

#[test]
fn map_entries_one_call() {
    let mut state = State::new();
    let entries: Vec<(String, i64)> = vec![("a".to_string(), 1), ("b".to_string(), 2)];
    let ser = state.serialize();
    let val = ser.serialize_hash(&mut state, &entries);
    let back: Vec<(String, i64)> = state
        .deserialize(val)
        .deserialize_entries(&mut state)
        .unwrap();
    assert_eq!(back, entries);

    let num = state.serialize().serialize_integer(3);
    let empty: Vec<(String, i64)> = state
        .deserialize(num)
        .deserialize_entries(&mut state)
        .unwrap();
    assert!(empty.is_empty());
}

#[test]
fn map_entries_surface_element_error() {
    let mut state = State::new();
    let entries: Vec<(i64, i64)> = vec![(1, 2)];
    let ser = state.serialize();
    let val = ser.serialize_hash(&mut state, &entries);
    let err = state
        .deserialize(val)
        .deserialize_entries::<String, i64>(&mut state)
        .unwrap_err();
    assert_eq!(err, CastError::UnexpectedType("value is not a string".to_string()));
}

#[test]
fn serialization_is_idempotent() {
    let mut state = State::new();
    let first = 42i64.to_value(state.serialize(), &mut state);
    let second = 42i64.to_value(state.serialize(), &mut state);
    assert_eq!(first, second);

    let text = "twice".to_string();
    let one = text.to_value(state.serialize(), &mut state);
    let two = text.to_value(state.serialize(), &mut state);
    let s1 = String::from_value(state.deserialize(one), &mut state).unwrap();
    let s2 = String::from_value(state.deserialize(two), &mut state).unwrap();
    assert_eq!(s1, s2);
}

#[test]
fn non_array_reads_as_empty_sequence() {
    let mut state = State::new();
    let val = state.serialize().serialize_integer(9);
    let back: Vec<i64> = Vec::from_value(state.deserialize(val), &mut state).unwrap();
    assert!(back.is_empty());
}

#[test]
fn nested_containers_round_trip() {
    let mut state = State::new();
    let input: Vec<Vec<i64>> = vec![vec![1, 2], vec![], vec![3]];
    let val = input.to_value(state.serialize(), &mut state);
    let back: Vec<Vec<i64>> = Vec::from_value(state.deserialize(val), &mut state).unwrap();
    assert_eq!(back, input);
}

#[test]
fn cast_error_messages() {
    assert_eq!(
        CastError::Length(2, 3).message(),
        "incorrect array or tuple length: expected 2, found 3"
    );
    assert_eq!(
        CastError::NumericConversion(300, "u8").message(),
        "numeric conversion failed: '300' cannot be cast as 'u8'"
    );
}

#[test]
fn widest_tuple_round_trip() {
    let mut state = State::new();
    let input: (i64, i64, i64, i64, i64, i64, i64, i64, i64, i64, i64, i64) = (
        1, 2, 3, 4, 5, 6, 7, 8, 9, 10, 11, 12,
    );
    let val = input.to_value(state.serialize(), &mut state);
    let back = <(i64, i64, i64, i64, i64, i64, i64, i64, i64, i64, i64, i64)>::from_value(
        state.deserialize(val),
        &mut state,
    )
    .unwrap();
    assert_eq!(back, input);

    let thirteen: (i64, i64, i64, i64, i64, i64, i64, i64, i64, i64, i64, i64, i64) = (
        1, 2, 3, 4, 5, 6, 7, 8, 9, 10, 11, 12, 13,
    );
    let val = thirteen.to_value(state.serialize(), &mut state);
    let back = <(i64, i64, i64, i64, i64, i64, i64, i64, i64, i64, i64, i64, i64)>::from_value(
        state.deserialize(val),
        &mut state,
    )
    .unwrap();
    assert_eq!(back.0, 1);
    assert_eq!(back.6, 7);
    assert_eq!(back.12, 13);

    let val = thirteen.to_value(state.serialize(), &mut state);
    let err = <(i64, i64)>::from_value(state.deserialize(val), &mut state).unwrap_err();
    assert_eq!(err, CastError::Length(2, 13));
}

#[test]
fn deque_round_trip() {
    let mut state = State::new();
    let mut input: VecDeque<i64> = VecDeque::new();
    input.push_back(5);
    input.push_back(6);
    input.push_front(4);
    let val = input.to_value(state.serialize(), &mut state);
    assert!(val.is_array());
    let back: VecDeque<i64> = VecDeque::from_value(state.deserialize(val), &mut state).unwrap();
    assert_eq!(back, input);
}
