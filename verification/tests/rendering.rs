use hetval::value::{Num, Value};

#[test]
fn null_renders_to_the_same_literal_across_calls() {
    let first = Value::Null.render();
    let second = Value::Null.render();
    assert_eq!(first, "null");
    assert_eq!(first, second);
}

#[test]
fn booleans_render_to_their_names() {
    assert_eq!(Value::Bool(true).render(), "true");
    assert_eq!(Value::Bool(false).render(), "false");
}

#[test]
fn integers_render_in_decimal() {
    assert_eq!(Value::Num(Num::I32(0)).render(), "0");
    assert_eq!(Value::Num(Num::I32(-42)).render(), "-42");
    assert_eq!(Value::Num(Num::I32(i32::MIN)).render(), "-2147483648");
    assert_eq!(Value::Num(Num::I64(i64::MIN)).render(), "-9223372036854775808");
    assert_eq!(Value::Num(Num::I64(i64::MAX)).render(), "9223372036854775807");
    assert_eq!(Value::Num(Num::U32(10)).render(), "10");
    assert_eq!(Value::Num(Num::U64(u64::MAX)).render(), "18446744073709551615");
}

#[test]
fn float_payloads_render_their_bit_patterns() {
    assert_eq!(Value::Num(Num::F32(0)).render(), "0");
    assert_eq!(Value::Num(Num::F64(1024)).render(), "1024");
}

#[test]
fn strings_render_as_raw_text() {
    assert_eq!(Value::new("plain text, no quotes").render(), "plain text, no quotes");
    assert_eq!(Value::new("").render(), "");
}

#[test]
fn arrays_render_bracketed_and_comma_separated() {
    assert_eq!(Value::Array(vec![]).render(), "[]");
    assert_eq!(Value::new(vec![Value::Num(Num::I32(1))]).render(), "[1]");
    let v = Value::new(vec![Value::Null, Value::Bool(true), Value::Num(Num::U32(7))]);
    assert_eq!(v.render(), "[null, true, 7]");
}

#[test]
fn rendering_reaches_the_innermost_string() {
    let inner = Value::new(vec![Value::new("deep")]);
    let outer = Value::new(vec![inner, Value::Bool(false)]);
    assert_eq!(outer.render(), "[[deep], false]");
}

#[test]
fn equal_values_render_equally() {
    let v = Value::new(vec![Value::new("x"), Value::Num(Num::I64(-1))]);
    let w = v.clone();
    assert_eq!(v.render(), w.render());
}
