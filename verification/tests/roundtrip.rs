use hetval::value::{Num, Value};

#[test]
fn bool_round_trip() {
    assert_eq!(Value::new(true).bool(), Some(true));
    assert_eq!(Value::new(false).bool(), Some(false));
}

#[test]
fn i32_round_trip() {
    assert_eq!(Value::new(5i32).i32(), Some(5i32));
    assert_eq!(Value::new(-7i32).i32(), Some(-7i32));
    assert_eq!(Value::new(i32::MIN).i32(), Some(i32::MIN));
}

#[test]
fn i64_round_trip() {
    assert_eq!(Value::new(5i64).i64(), Some(5i64));
    assert_eq!(Value::new(i64::MIN).i64(), Some(i64::MIN));
    assert_eq!(Value::new(i64::MAX).i64(), Some(i64::MAX));
}

#[test]
fn u32_round_trip() {
    assert_eq!(Value::new(9u32).u32(), Some(9u32));
    assert_eq!(Value::new(u32::MAX).u32(), Some(u32::MAX));
}

#[test]
fn u64_round_trip() {
    assert_eq!(Value::new(9u64).u64(), Some(9u64));
    assert_eq!(Value::new(u64::MAX).u64(), Some(u64::MAX));
}

#[test]
fn f32_bits_round_trip() {
    let bits = 1.5f32.to_bits();
    let v = Value::Num(Num::F32(bits));
    assert_eq!(v.f32_bits(), Some(bits));
    assert_eq!(f32::from_bits(v.f32_bits().unwrap()), 1.5f32);
}

#[test]
fn f64_bits_round_trip() {
    let bits = 1.5f64.to_bits();
    let v = Value::Num(Num::F64(bits));
    assert_eq!(v.f64_bits(), Some(bits));
    assert_eq!(f64::from_bits(v.f64_bits().unwrap()), 1.5f64);
}

#[test]
fn str_round_trip() {
    let v = Value::new("hello");
    assert!(matches!(v, Value::String(_)));
    assert_eq!(v.string(), Some(String::from("hello")));
}

#[test]
fn owned_string_round_trip() {
    let v = Value::new(String::from("world"));
    assert!(matches!(v, Value::String(_)));
    assert_eq!(v.string(), Some(String::from("world")));
}

#[test]
fn cross_kind_absent_from_i32() {
    let v = Value::new(5i32);
    assert_eq!(v.u32(), None);
    assert_eq!(v.i64(), None);
    assert_eq!(v.u64(), None);
    assert_eq!(v.f32_bits(), None);
    assert_eq!(v.f64_bits(), None);
    assert_eq!(v.bool(), None);
    assert_eq!(v.string(), None);
}

#[test]
fn cross_kind_absent_from_bool() {
    let v = Value::new(true);
    assert_eq!(v.i32(), None);
    assert_eq!(v.i64(), None);
    assert_eq!(v.u32(), None);
    assert_eq!(v.u64(), None);
    assert_eq!(v.f32_bits(), None);
    assert_eq!(v.f64_bits(), None);
    assert_eq!(v.string(), None);
}

#[test]
fn cross_kind_absent_between_unsigned_widths() {
    let v = Value::new(5u32);
    assert_eq!(v.u64(), None);
    assert_eq!(v.i32(), None);
    let w = Value::new(5u64);
    assert_eq!(w.u32(), None);
    assert_eq!(w.i64(), None);
}

#[test]
fn cross_kind_absent_from_string() {
    let v = Value::new("5");
    assert_eq!(v.i32(), None);
    assert_eq!(v.bool(), None);
    assert_eq!(v.u64(), None);
}

#[test]
fn cross_kind_absent_between_float_widths() {
    let v = Value::Num(Num::F32(0));
    assert_eq!(v.f64_bits(), None);
    assert_eq!(v.u32(), None);
    let w = Value::Num(Num::F64(0));
    assert_eq!(w.f32_bits(), None);
    assert_eq!(w.u64(), None);
}

#[test]
fn unsupported_kind_falls_back_to_null() {
    let v = Value::new(());
    assert!(matches!(v, Value::Null));
    assert_eq!(v.bool(), None);
    assert_eq!(v.i32(), None);
    assert_eq!(v.i64(), None);
    assert_eq!(v.u32(), None);
    assert_eq!(v.u64(), None);
    assert_eq!(v.f32_bits(), None);
    assert_eq!(v.f64_bits(), None);
    assert_eq!(v.string(), None);
}

#[test]
fn array_preserves_elements_in_order() {
    let v = Value::new(vec![Value::Bool(true), Value::Num(Num::I32(3))]);
    match &v {
        Value::Array(elems) => {
            assert_eq!(elems.len(), 2);
            assert_eq!(elems[0].bool(), Some(true));
            assert_eq!(elems[1].i32(), Some(3i32));
        }
        _ => panic!("expected an array"),
    }
}

#[test]
fn nested_arrays_keep_their_depth() {
    let inner = Value::new(vec![Value::new("deep")]);
    let outer = Value::new(vec![inner, Value::Bool(false)]);
    match &outer {
        Value::Array(elems) => {
            assert_eq!(elems.len(), 2);
            match &elems[0] {
                Value::Array(inner_elems) => {
                    assert_eq!(inner_elems.len(), 1);
                    assert_eq!(inner_elems[0].string(), Some(String::from("deep")));
                }
                _ => panic!("inner array was flattened"),
            }
            assert_eq!(elems[1].bool(), Some(false));
        }
        _ => panic!("expected an array"),
    }
}

#[test]
fn clone_is_a_deep_independent_copy() {
    let original = Value::new(vec![
        Value::new("text"),
        Value::new(vec![Value::Num(Num::U64(7))]),
    ]);
    let copy = original.clone();
    drop(original);
    match &copy {
        Value::Array(elems) => {
            assert_eq!(elems[0].string(), Some(String::from("text")));
            match &elems[1] {
                Value::Array(inner) => assert_eq!(inner[0].u64(), Some(7u64)),
                _ => panic!("expected a nested array"),
            }
        }
        _ => panic!("expected an array"),
    }
}

#[test]
fn string_accessor_returns_an_independent_copy() {
    let v = Value::new(String::from("abc"));
    let first = v.string().unwrap();
    let second = v.string().unwrap();
    assert_eq!(first, second);
    drop(first);
    assert_eq!(v.string(), Some(String::from("abc")));
}
