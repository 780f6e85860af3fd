use vstd::prelude::*;

use crate::text::render_model;
use crate::value::{lemma_models_of, IntoValue, Num, Value, ValueModel};

verus! {

/// Round trip for booleans: a converted boolean reads back as exactly
/// itself, and every other accessor is absent.
pub proof fn lemma_bool_round_trip(b: bool)
    ensures
        b.value_model().as_bool() == Some(b),
        b.value_model().as_i32() is None,
        b.value_model().as_i64() is None,
        b.value_model().as_u32() is None,
        b.value_model().as_u64() is None,
        b.value_model().as_f32_bits() is None,
        b.value_model().as_f64_bits() is None,
        b.value_model().as_str() is None,
{
}

/// Round trip for signed 32-bit numbers: the payload reads back exactly,
/// and no other accessor applies, other numeric widths included.
pub proof fn lemma_i32_round_trip(x: i32)
    ensures
        x.value_model().as_i32() == Some(x),
        x.value_model().as_bool() is None,
        x.value_model().as_i64() is None,
        x.value_model().as_u32() is None,
        x.value_model().as_u64() is None,
        x.value_model().as_f32_bits() is None,
        x.value_model().as_f64_bits() is None,
        x.value_model().as_str() is None,
{
}

/// Round trip for signed 64-bit numbers.
pub proof fn lemma_i64_round_trip(x: i64)
    ensures
        x.value_model().as_i64() == Some(x),
        x.value_model().as_bool() is None,
        x.value_model().as_i32() is None,
        x.value_model().as_u32() is None,
        x.value_model().as_u64() is None,
        x.value_model().as_f32_bits() is None,
        x.value_model().as_f64_bits() is None,
        x.value_model().as_str() is None,
{
}

/// Round trip for unsigned 32-bit numbers.
pub proof fn lemma_u32_round_trip(x: u32)
    ensures
        x.value_model().as_u32() == Some(x),
        x.value_model().as_bool() is None,
        x.value_model().as_i32() is None,
        x.value_model().as_i64() is None,
        x.value_model().as_u64() is None,
        x.value_model().as_f32_bits() is None,
        x.value_model().as_f64_bits() is None,
        x.value_model().as_str() is None,
{
}

/// Round trip for unsigned 64-bit numbers.
pub proof fn lemma_u64_round_trip(x: u64)
    ensures
        x.value_model().as_u64() == Some(x),
        x.value_model().as_bool() is None,
        x.value_model().as_i32() is None,
        x.value_model().as_i64() is None,
        x.value_model().as_u32() is None,
        x.value_model().as_f32_bits() is None,
        x.value_model().as_f64_bits() is None,
        x.value_model().as_str() is None,
{
}

/// Round trip for single-precision payloads, held as bit patterns: the
/// stored bits read back exactly, and no other accessor applies.
pub proof fn lemma_f32_bits_round_trip(b: u32)
    ensures
        ValueModel::Num(Num::F32(b)).as_f32_bits() == Some(b),
        ValueModel::Num(Num::F32(b)).as_bool() is None,
        ValueModel::Num(Num::F32(b)).as_i32() is None,
        ValueModel::Num(Num::F32(b)).as_i64() is None,
        ValueModel::Num(Num::F32(b)).as_u32() is None,
        ValueModel::Num(Num::F32(b)).as_u64() is None,
        ValueModel::Num(Num::F32(b)).as_f64_bits() is None,
        ValueModel::Num(Num::F32(b)).as_str() is None,
{
}

/// Round trip for double-precision payloads, held as bit patterns.
pub proof fn lemma_f64_bits_round_trip(b: u64)
    ensures
        ValueModel::Num(Num::F64(b)).as_f64_bits() == Some(b),
        ValueModel::Num(Num::F64(b)).as_bool() is None,
        ValueModel::Num(Num::F64(b)).as_i32() is None,
        ValueModel::Num(Num::F64(b)).as_i64() is None,
        ValueModel::Num(Num::F64(b)).as_u32() is None,
        ValueModel::Num(Num::F64(b)).as_u64() is None,
        ValueModel::Num(Num::F64(b)).as_f32_bits() is None,
        ValueModel::Num(Num::F64(b)).as_str() is None,
{
}

/// Round trip for borrowed text: the converted value holds exactly the
/// source's characters, and no other accessor applies.
pub proof fn lemma_str_round_trip(s: &str)
    ensures
        s.value_model().as_str() == Some(s@),
        s.value_model().as_bool() is None,
        s.value_model().as_i32() is None,
        s.value_model().as_i64() is None,
        s.value_model().as_u32() is None,
        s.value_model().as_u64() is None,
        s.value_model().as_f32_bits() is None,
        s.value_model().as_f64_bits() is None,
{
}

/// Round trip for owned text.
pub proof fn lemma_string_round_trip(s: String)
    ensures
        s.value_model().as_str() == Some(s@),
        s.value_model().as_bool() is None,
        s.value_model().as_i32() is None,
        s.value_model().as_i64() is None,
        s.value_model().as_u32() is None,
        s.value_model().as_u64() is None,
        s.value_model().as_f32_bits() is None,
        s.value_model().as_f64_bits() is None,
{
}

/// At most one accessor is present on any value: a value that reads back as
/// one kind reads back as no other. This holds pairwise for every pair of
/// distinct kinds, numeric sub-kinds included.
pub proof fn lemma_accessors_exclusive(m: ValueModel)
    ensures
        m.as_bool() is Some ==> m.as_i32() is None && m.as_i64() is None && m.as_u32() is None
            && m.as_u64() is None && m.as_f32_bits() is None && m.as_f64_bits() is None
            && m.as_str() is None,
        m.as_i32() is Some ==> m.as_bool() is None && m.as_i64() is None && m.as_u32() is None
            && m.as_u64() is None && m.as_f32_bits() is None && m.as_f64_bits() is None
            && m.as_str() is None,
        m.as_i64() is Some ==> m.as_bool() is None && m.as_i32() is None && m.as_u32() is None
            && m.as_u64() is None && m.as_f32_bits() is None && m.as_f64_bits() is None
            && m.as_str() is None,
        m.as_u32() is Some ==> m.as_bool() is None && m.as_i32() is None && m.as_i64() is None
            && m.as_u64() is None && m.as_f32_bits() is None && m.as_f64_bits() is None
            && m.as_str() is None,
        m.as_u64() is Some ==> m.as_bool() is None && m.as_i32() is None && m.as_i64() is None
            && m.as_u32() is None && m.as_f32_bits() is None && m.as_f64_bits() is None
            && m.as_str() is None,
        m.as_f32_bits() is Some ==> m.as_bool() is None && m.as_i32() is None && m.as_i64() is None
            && m.as_u32() is None && m.as_u64() is None && m.as_f64_bits() is None
            && m.as_str() is None,
        m.as_f64_bits() is Some ==> m.as_bool() is None && m.as_i32() is None && m.as_i64() is None
            && m.as_u32() is None && m.as_u64() is None && m.as_f32_bits() is None
            && m.as_str() is None,
        m.as_str() is Some ==> m.as_bool() is None && m.as_i32() is None && m.as_i64() is None
            && m.as_u32() is None && m.as_u64() is None && m.as_f32_bits() is None
            && m.as_f64_bits() is None,
{
}

/// The null fallback: an input outside the supported kinds converts to
/// `Null`, and every accessor on `Null` is absent.
pub proof fn lemma_null_absent()
    ensures
        ().value_model() == ValueModel::Null,
        ValueModel::Null.as_bool() is None,
        ValueModel::Null.as_i32() is None,
        ValueModel::Null.as_i64() is None,
        ValueModel::Null.as_u32() is None,
        ValueModel::Null.as_u64() is None,
        ValueModel::Null.as_f32_bits() is None,
        ValueModel::Null.as_f64_bits() is None,
        ValueModel::Null.as_str() is None,
{
}

/// Converting a vector of values yields the array model with one entry per
/// element, each at its original place: order is preserved and nothing is
/// flattened, so each element reads back through its own accessor.
pub proof fn lemma_array_preserved(v: Vec<Value>)
    ensures
        v.value_model() matches ValueModel::Array(ms) && ms.len() == v@.len() && forall|i: int|
            0 <= i < v@.len() ==> ms[i] == #[trigger] v@[i].model(),
{
    lemma_models_of(v@);
}

/// Rendering is a function of the model alone, so `Null` always renders to
/// the same four characters, across any number of calls.
pub proof fn lemma_null_text()
    ensures
        render_model(ValueModel::Null) == "null"@,
        render_model(ValueModel::Null).len() == 4,
{
    reveal_strlit("null");
}

} // verus!
