//! The class-declaration builder.

use mruby::class::Builder;
use mruby::state::State;

#[test]
fn class_builder_declares_bindings() {
    let mut state = State::new();
    let mut builder = Builder::new(&mut state, "Point", Some("Object"));
    builder.def_const(&mut state, "DIMENSIONS", &2i64);
    builder.def_const(&mut state, "ORIGIN_NAME", &"origin".to_string());
    builder.def_var(&mut state, "@x", &0i64);
    assert_eq!(builder.consts_len(), 2);
    assert_eq!(builder.vars_len(), 1);
}
