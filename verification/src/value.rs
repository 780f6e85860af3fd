use vstd::prelude::*;

verus! {

/// The numeric alternatives a heterogeneous value can carry: signed and
/// unsigned integers of 32 and 64 bits, and single- and double-precision
/// IEEE 754 numbers. A floating-point payload is carried as its bit
/// pattern (`u32` for single, `u64` for double precision), so that storing
/// and retrieving it is exact; interpreting the bits as a number is left to
/// callers.
#[derive(Clone, Copy, Debug, PartialEq, Eq, Structural)]
pub enum Num {
    I32(i32),
    I64(i64),
    U32(u32),
    U64(u64),
    F32(u32),
    F64(u64),
}

/// A heterogeneous value: exactly one of a closed set of alternatives.
/// `Null` marks the absence of a supported value; `Array` nests further
/// values, order preserved.
#[derive(Debug)]
pub enum Value {
    Null,
    Bool(bool),
    Num(Num),
    String(String),
    Array(Vec<Value>),
}

/// The mathematical model of a `Value`: text becomes a sequence of
/// characters and an array becomes a sequence of models, so that contracts
/// can speak of contents rather than of allocations.
pub enum ValueModel {
    Null,
    Bool(bool),
    Num(Num),
    Str(Seq<char>),
    Array(Seq<ValueModel>),
}

impl Value {
    /// The model of one value; arrays are modelled element by element.
    pub open spec fn model(self) -> ValueModel
        decreases self,
    {
        match self {
            Value::Null => ValueModel::Null,
            Value::Bool(b) => ValueModel::Bool(b),
            Value::Num(n) => ValueModel::Num(n),
            Value::String(s) => ValueModel::Str(s@),
            Value::Array(a) => ValueModel::Array(models_of(a@)),
        }
    }
}

/// The models of a sequence of values, in order.
pub open spec fn models_of(s: Seq<Value>) -> Seq<ValueModel>
    decreases s,
{
    if s.len() == 0 {
        Seq::empty()
    } else {
        seq![s[0].model()] + models_of(s.drop_first())
    }
}

/// `models_of` maps the sequence pointwise: same length, and the model of
/// each element stands at the element's place.
pub proof fn lemma_models_of(s: Seq<Value>)
    ensures
        models_of(s).len() == s.len(),
        forall|i: int| 0 <= i < s.len() ==> models_of(s)[i] == #[trigger] s[i].model(),
    decreases s,
{
    if s.len() > 0 {
        lemma_models_of(s.drop_first());
        assert forall|i: int| 0 <= i < s.len() implies models_of(s)[i] == #[trigger] s[i].model() by {
            if i > 0 {
                assert(s.drop_first()[i - 1] == s[i]);
                assert(models_of(s)[i] == models_of(s.drop_first())[i - 1]);
            }
        }
    }
}

impl View for Value {
    type V = ValueModel;

    open spec fn view(&self) -> ValueModel {
        self.model()
    }
}

impl Clone for Value {
    /// A deep, independent copy: the copy's model equals the original's,
    /// array elements and text included.
    fn clone(&self) -> (res: Self)
        ensures
            res@ == self@,
        decreases self,
    {
        match self {
            Value::Null => Value::Null,
            Value::Bool(b) => Value::Bool(*b),
            Value::Num(n) => Value::Num(*n),
            Value::String(s) => Value::String(s.clone()),
            Value::Array(a) => {
                let mut out: Vec<Value> = Vec::new();
                let mut i: usize = 0;
                while i < a.len()
                    invariant
                        *self == Value::Array(*a),
                        i <= a.len(),
                        out@.len() == i as nat,
                        forall|j: int| 0 <= j < i ==> (#[trigger] out@[j])@ == a@[j]@,
                    decreases a.len() - i,
                {
                    proof {
                        assert(decreases_to!(*self => self->Array_0));
                        assert(decreases_to!(*a => a@));
                        assert(decreases_to!(a@ => a@[i as int]));
                    }
                    out.push(a[i].clone());
                    i = i + 1;
                }
                proof {
                    lemma_models_of(out@);
                    lemma_models_of(a@);
                    assert forall|j: int| 0 <= j < out@.len() implies models_of(out@)[j]
                        == models_of(a@)[j] by {
                        assert(out@[j]@ == a@[j]@);
                    }
                    assert(models_of(out@) =~= models_of(a@));
                }
                Value::Array(out)
            },
        }
    }
}

/// The closed set of native kinds a `Value` can be built from. Each
/// supported kind names the model its values convert to; the conversion is
/// then proved to produce exactly that model. A kind outside the supported
/// set converts to the `Null` model: absence of a supported kind is a
/// deliberate fallback, not an error.
pub trait IntoValue: Sized {
    /// The model of the `Value` this input converts to.
    spec fn value_model(self) -> ValueModel;

    /// Wrap the input in its `Value` variant.
    fn into_value(self) -> (r: Value)
        ensures
            r@ == self.value_model(),
    ;
}

impl IntoValue for bool {
    open spec fn value_model(self) -> ValueModel {
        ValueModel::Bool(self)
    }

    fn into_value(self) -> (r: Value) {
        Value::Bool(self)
    }
}

impl IntoValue for i32 {
    open spec fn value_model(self) -> ValueModel {
        ValueModel::Num(Num::I32(self))
    }

    fn into_value(self) -> (r: Value) {
        Value::Num(Num::I32(self))
    }
}

impl IntoValue for i64 {
    open spec fn value_model(self) -> ValueModel {
        ValueModel::Num(Num::I64(self))
    }

    fn into_value(self) -> (r: Value) {
        Value::Num(Num::I64(self))
    }
}

impl IntoValue for u32 {
    open spec fn value_model(self) -> ValueModel {
        ValueModel::Num(Num::U32(self))
    }

    fn into_value(self) -> (r: Value) {
        Value::Num(Num::U32(self))
    }
}

impl IntoValue for u64 {
    open spec fn value_model(self) -> ValueModel {
        ValueModel::Num(Num::U64(self))
    }

    fn into_value(self) -> (r: Value) {
        Value::Num(Num::U64(self))
    }
}

impl<'a> IntoValue for &'a str {
    open spec fn value_model(self) -> ValueModel {
        ValueModel::Str(self@)
    }

    fn into_value(self) -> (r: Value) {
        Value::String(self.to_owned())
    }
}

impl IntoValue for String {
    open spec fn value_model(self) -> ValueModel {
        ValueModel::Str(self@)
    }

    fn into_value(self) -> (r: Value) {
        Value::String(self)
    }
}

impl IntoValue for Vec<Value> {
    open spec fn value_model(self) -> ValueModel {
        ValueModel::Array(models_of(self@))
    }

    fn into_value(self) -> (r: Value) {
        Value::Array(self)
    }
}

/// The unit type lies outside the supported kinds; it converts to `Null`,
/// as every unsupported kind does.
impl IntoValue for () {
    open spec fn value_model(self) -> ValueModel {
        ValueModel::Null
    }

    fn into_value(self) -> (r: Value) {
        Value::Null
    }
}

impl ValueModel {
    /// The boolean a model holds, if it is the boolean alternative.
    pub open spec fn as_bool(self) -> Option<bool> {
        match self {
            ValueModel::Bool(b) => Some(b),
            _ => None,
        }
    }

    /// The signed 32-bit payload, if the model is exactly that numeric kind.
    pub open spec fn as_i32(self) -> Option<i32> {
        match self {
            ValueModel::Num(Num::I32(x)) => Some(x),
            _ => None,
        }
    }

    /// The signed 64-bit payload, if the model is exactly that numeric kind.
    pub open spec fn as_i64(self) -> Option<i64> {
        match self {
            ValueModel::Num(Num::I64(x)) => Some(x),
            _ => None,
        }
    }

    /// The unsigned 32-bit payload, if the model is exactly that numeric kind.
    pub open spec fn as_u32(self) -> Option<u32> {
        match self {
            ValueModel::Num(Num::U32(x)) => Some(x),
            _ => None,
        }
    }

    /// The unsigned 64-bit payload, if the model is exactly that numeric kind.
    pub open spec fn as_u64(self) -> Option<u64> {
        match self {
            ValueModel::Num(Num::U64(x)) => Some(x),
            _ => None,
        }
    }

    /// The single-precision bit pattern, if the model is exactly that kind.
    pub open spec fn as_f32_bits(self) -> Option<u32> {
        match self {
            ValueModel::Num(Num::F32(x)) => Some(x),
            _ => None,
        }
    }

    /// The double-precision bit pattern, if the model is exactly that kind.
    pub open spec fn as_f64_bits(self) -> Option<u64> {
        match self {
            ValueModel::Num(Num::F64(x)) => Some(x),
            _ => None,
        }
    }

    /// The text a model holds, if it is the string alternative.
    pub open spec fn as_str(self) -> Option<Seq<char>> {
        match self {
            ValueModel::Str(t) => Some(t),
            _ => None,
        }
    }
}

impl Value {
    /// Build a `Value` from any supported native kind. The result's model
    /// is exactly the one the kind names: the conversion is total, loses
    /// nothing, and never fails.
    pub fn new<T: IntoValue>(value: T) -> (r: Value)
        ensures
            r@ == value.value_model(),
    {
        value.into_value()
    }

    /// The boolean payload, or `None` when any other alternative is active.
    pub fn bool(&self) -> (r: Option<bool>)
        ensures
            r == self@.as_bool(),
    {
        if let Value::Bool(b) = self {
            Some(*b)
        } else {
            None
        }
    }

    /// The `i32` payload, or `None` for every other alternative, other
    /// numeric kinds included: no width or sign is coerced.
    pub fn i32(&self) -> (r: Option<i32>)
        ensures
            r == self@.as_i32(),
    {
        if let Value::Num(Num::I32(x)) = self {
            Some(*x)
        } else {
            None
        }
    }

    /// The `i64` payload, or `None` for every other alternative.
    pub fn i64(&self) -> (r: Option<i64>)
        ensures
            r == self@.as_i64(),
    {
        if let Value::Num(Num::I64(x)) = self {
            Some(*x)
        } else {
            None
        }
    }

    /// The `u32` payload, or `None` for every other alternative.
    pub fn u32(&self) -> (r: Option<u32>)
        ensures
            r == self@.as_u32(),
    {
        if let Value::Num(Num::U32(x)) = self {
            Some(*x)
        } else {
            None
        }
    }

    /// The `u64` payload, or `None` for every other alternative.
    pub fn u64(&self) -> (r: Option<u64>)
        ensures
            r == self@.as_u64(),
    {
        if let Value::Num(Num::U64(x)) = self {
            Some(*x)
        } else {
            None
        }
    }

    /// The single-precision bit pattern, or `None` for every other
    /// alternative.
    pub fn f32_bits(&self) -> (r: Option<u32>)
        ensures
            r == self@.as_f32_bits(),
    {
        if let Value::Num(Num::F32(x)) = self {
            Some(*x)
        } else {
            None
        }
    }

    /// The double-precision bit pattern, or `None` for every other
    /// alternative.
    pub fn f64_bits(&self) -> (r: Option<u64>)
        ensures
            r == self@.as_f64_bits(),
    {
        if let Value::Num(Num::F64(x)) = self {
            Some(*x)
        } else {
            None
        }
    }

    /// An owned copy of the text payload, or `None` for every other
    /// alternative.
    pub fn string(&self) -> (r: Option<String>)
        ensures
            match self@.as_str() {
                Some(t) => r matches Some(s) && s@ == t,
                None => r is None,
            },
    {
        if let Value::String(s) = self {
            Some(s.clone())
        } else {
            None
        }
    }
}

} // verus!
