//! Symbol text, display forms, and case-convention name resolution.

use mruby::de::CastError;
use mruby::state::State;
use mruby::symbol::{Case, InvalidSymbolError, Resolver, Symbol, ToSymbol};

#[test]
fn symbol_display_bare_identifier() {
    let symbol = Symbol::new("hello_world");
    assert_eq!(symbol.display_string(), ":hello_world");
}

#[test]
fn symbol_display_quotes_other_text() {
    assert_eq!(Symbol::new("white space").display_string(), ":\"white space\"");
    assert_eq!(Symbol::new("9lives").display_string(), ":\"9lives\"");
    assert_eq!(Symbol::new("").display_string(), ":\"\"");
}

#[test]
fn symbol_display_escapes_quoted_text() {
    assert_eq!(Symbol::new("a\"b").display_string(), ":\"a\\\"b\"");
    assert_eq!(Symbol::new("back\\slash").display_string(), ":\"back\\\\slash\"");
    assert_eq!(Symbol::new("line\nbreak").display_string(), ":\"line\\nbreak\"");
    assert_eq!(Symbol::new("tab\there").display_string(), ":\"tab\\there\"");
    assert_eq!(Symbol::new("it's").display_string(), ":\"it\\'s\"");
    assert_eq!(Symbol::new("caf\u{e9}").display_string(), ":\"caf\\u{e9}\"");
    assert_eq!(Symbol::new("nul\u{0}end").display_string(), ":\"nul\\u{0}end\"");
}

#[test]
fn case_conventions() {
    assert_eq!(Case::Snake.apply("BarBaz"), "bar_baz");
    assert_eq!(Case::Camel.apply("foo_bar"), "fooBar");
    assert_eq!(Case::Pascal.apply("foo_bar"), "FooBar");
    assert_eq!(Case::Kebab.apply("FooBar"), "foo-bar");
    assert_eq!(Case::ScreamingSnake.apply("FooBar"), "FOO_BAR");
    assert_eq!(Case::Lower.apply("FooBar"), "foobar");
    assert_eq!(Case::Upper.apply("FooBar"), "FOOBAR");
    assert_eq!(Case::LowerSpaced.apply("FooBar"), "foo bar");
    assert_eq!(Case::UpperSpaced.apply("FooBar"), "FOO BAR");
}

#[test]
fn default_convention_is_snake_case() {
    assert_eq!(Case::default(), Case::Snake);
}

#[test]
fn symbol_resolution_snake_case() {
    let mut names = Resolver::new(Case::Snake);
    names.variant("Foo");
    names.variant("BarBaz");

    assert_eq!(names.len(), 2);
    assert_eq!(names.name_of(0), "foo");
    assert_eq!(names.name_of(1), "bar_baz");
    assert_eq!(names.resolve("foo"), Ok(0));
    assert_eq!(names.resolve("bar_baz"), Ok(1));
    assert_eq!(names.resolve("qux"), Err(InvalidSymbolError::new("qux")));
}

#[test]
fn symbol_resolution_respects_rename() {
    let mut names = Resolver::new(Case::Snake);
    names.variant("Foo");
    names.variant_renamed("BarBaz", "bb");

    assert_eq!(names.name_of(1), "bb");
    assert_eq!(names.resolve("bb"), Ok(1));
    assert_eq!(names.resolve("bar_baz"), Err(InvalidSymbolError::new("bar_baz")));
}

#[test]
fn symbol_serialization_uses_convention_text() {
    let mut names = Resolver::new(Case::Snake);
    names.variant("Foo");
    names.variant("BarBaz");

    let mut state = State::new();
    let ser = state.serialize();
    let text = names.name_of(1);
    let val = ser.serialize_symbol(&mut state, text.as_str());
    assert!(val.is_symbol());

    let back: String = state.deserialize(val).deserialize_symbol(&state).unwrap();
    assert_eq!(back, "bar_baz");
    assert_eq!(names.resolve(back.as_str()), Ok(1));
}

#[test]
fn interning_reuses_symbol_ids() {
    let mut state = State::new();
    let ser = state.serialize();
    let a = ser.serialize_symbol(&mut state, "same");
    let b = ser.serialize_symbol(&mut state, "same");
    let c = ser.serialize_symbol(&mut state, "other");
    assert_eq!(a, b);
    assert_ne!(a, c);
}

#[test]
fn invalid_symbol_message() {
    let err = InvalidSymbolError::new("qux");
    assert_eq!(err.message(), "`qux` is not a recognized symbol");
    assert_eq!(
        CastError::InvalidSymbol(err).message(),
        "`qux` is not a recognized symbol"
    );
}

#[test]
fn to_symbol_exposes_text() {
    let sym = Symbol::new("abc");
    assert_eq!(ToSymbol::as_str(&sym), "abc");
    assert_eq!(sym.to_symbol(), sym);
    assert_eq!("plain".to_symbol(), Symbol::new("plain"));
}

#[test]
fn deserialize_symbol_rejects_other_tags() {
    let mut state = State::new();
    let val = state.serialize().serialize_integer(5);
    let err: CastError = state
        .deserialize(val)
        .deserialize_symbol::<Symbol>(&state)
        .unwrap_err();
    assert_eq!(err, CastError::UnexpectedType("value is not a symbol".to_string()));
}
