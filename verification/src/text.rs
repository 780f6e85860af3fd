use vstd::prelude::*;
use vstd::string::StringExecFns;

use crate::value::{models_of, lemma_models_of, Num, Value, ValueModel};

verus! {

/// The decimal digit character for `d` in 0..10.
pub open spec fn dec_digit(d: int) -> char {
    if d == 0 {
        '0'
    } else if d == 1 {
        '1'
    } else if d == 2 {
        '2'
    } else if d == 3 {
        '3'
    } else if d == 4 {
        '4'
    } else if d == 5 {
        '5'
    } else if d == 6 {
        '6'
    } else if d == 7 {
        '7'
    } else if d == 8 {
        '8'
    } else {
        '9'
    }
}

/// The decimal numeral of a natural number, most significant digit first,
/// with no leading zero except for the numeral of zero itself.
pub open spec fn dec_nat(n: nat) -> Seq<char>
    decreases n,
{
    if n < 10 {
        seq![dec_digit(n as int)]
    } else {
        dec_nat(n / 10) + seq![dec_digit((n % 10) as int)]
    }
}

/// The decimal numeral of an integer: a minus sign before the numeral of
/// the magnitude when the integer is negative.
pub open spec fn dec_int(x: int) -> Seq<char> {
    if x < 0 {
        seq!['-'] + dec_nat((-x) as nat)
    } else {
        dec_nat(x as nat)
    }
}

/// The text of a numeric payload: the decimal numeral of the integer kinds,
/// and of the stored bit pattern for the floating-point kinds.
pub open spec fn num_text(n: Num) -> Seq<char> {
    match n {
        Num::I32(x) => dec_int(x as int),
        Num::I64(x) => dec_int(x as int),
        Num::U32(x) => dec_nat(x as nat),
        Num::U64(x) => dec_nat(x as nat),
        Num::F32(b) => dec_nat(b as nat),
        Num::F64(b) => dec_nat(b as nat),
    }
}

/// The text of a model: a fixed literal for `Null`, `true`/`false` for
/// booleans, the numeral of a number, the raw text of a string, and the
/// comma-separated, bracketed texts of an array's elements.
pub open spec fn render_model(m: ValueModel) -> Seq<char>
    decreases m,
{
    match m {
        ValueModel::Null => "null"@,
        ValueModel::Bool(b) => if b {
            "true"@
        } else {
            "false"@
        },
        ValueModel::Num(n) => num_text(n),
        ValueModel::Str(t) => t,
        ValueModel::Array(s) => "["@ + render_list(s) + "]"@,
    }
}

/// The texts of a sequence of models, joined by a comma and a space.
pub open spec fn render_list(s: Seq<ValueModel>) -> Seq<char>
    decreases s,
{
    if s.len() == 0 {
        Seq::empty()
    } else if s.len() == 1 {
        render_model(s[0])
    } else {
        render_model(s[0]) + ", "@ + render_list(s.drop_first())
    }
}

/// Appending one model to a rendered list appends a separator (except to an
/// empty list) and the model's text.
pub proof fn lemma_render_list_push(s: Seq<ValueModel>, m: ValueModel)
    ensures
        render_list(s.push(m)) == if s.len() == 0 {
            render_model(m)
        } else {
            render_list(s) + ", "@ + render_model(m)
        },
    decreases s,
{
    if s.len() == 0 {
        assert(s.push(m).len() == 1);
        assert(s.push(m)[0] == m);
    } else {
        lemma_render_list_push(s.drop_first(), m);
        assert(s.push(m).drop_first() =~= s.drop_first().push(m));
        assert(s.push(m)[0] == s[0]);
        if s.len() == 1 {
            assert(render_list(s.push(m)) == render_model(s[0]) + ", "@ + render_model(m));
            assert(render_list(s) == render_model(s[0]));
        } else {
            assert(render_list(s.push(m)) == render_model(s[0]) + ", "@ + (render_list(
                s.drop_first(),
            ) + ", "@ + render_model(m)));
            assert(render_model(s[0]) + ", "@ + (render_list(s.drop_first()) + ", "@
                + render_model(m)) =~= (render_model(s[0]) + ", "@ + render_list(s.drop_first()))
                + ", "@ + render_model(m));
        }
    }
}

/// The one-character text of a decimal digit.
fn digit_str(d: u64) -> (r: &'static str)
    requires
        d < 10,
    ensures
        r@ == seq![dec_digit(d as int)],
{
    proof {
        reveal_strlit("0");
        reveal_strlit("1");
        reveal_strlit("2");
        reveal_strlit("3");
        reveal_strlit("4");
        reveal_strlit("5");
        reveal_strlit("6");
        reveal_strlit("7");
        reveal_strlit("8");
        reveal_strlit("9");
    }
    match d {
        0 => "0",
        1 => "1",
        2 => "2",
        3 => "3",
        4 => "4",
        5 => "5",
        6 => "6",
        7 => "7",
        8 => "8",
        _ => "9",
    }
}

/// The decimal numeral of an unsigned 64-bit number.
fn dec_u64(n: u64) -> (r: String)
    ensures
        r@ == dec_nat(n as nat),
    decreases n,
{
    if n < 10 {
        String::from_str(digit_str(n))
    } else {
        let mut s = dec_u64(n / 10);
        s.append(digit_str(n % 10));
        s
    }
}

/// The decimal numeral of a signed 64-bit number.
fn dec_i64(x: i64) -> (r: String)
    ensures
        r@ == dec_int(x as int),
{
    if x >= 0 {
        dec_u64(x as u64)
    } else {
        let m: u64 = ((-(x + 1)) as u64) + 1;
        proof {
            assert(m as int == -(x as int));
            reveal_strlit("-");
        }
        let mut s = String::from_str("-");
        let digits = dec_u64(m);
        s.append(digits.as_str());
        s
    }
}

/// The text of a numeric payload, exactly as `num_text` names it.
fn num_string(n: &Num) -> (r: String)
    ensures
        r@ == num_text(*n),
{
    match n {
        Num::I32(x) => dec_i64(*x as i64),
        Num::I64(x) => dec_i64(*x),
        Num::U32(x) => dec_u64(*x as u64),
        Num::U64(x) => dec_u64(*x),
        Num::F32(b) => dec_u64(*b as u64),
        Num::F64(b) => dec_u64(*b),
    }
}

impl Value {
    /// Render the value as human-readable text: exactly the sequence of
    /// characters that `render_model` names for the value's model. The
    /// rendering is a function of the model alone, so equal values always
    /// render to the same text.
    pub fn render(&self) -> (r: String)
        ensures
            r@ == render_model(self@),
        decreases self,
    {
        match self {
            Value::Null => String::from_str("null"),
            Value::Bool(b) => if *b {
                String::from_str("true")
            } else {
                String::from_str("false")
            },
            Value::Num(n) => num_string(n),
            Value::String(s) => s.clone(),
            Value::Array(a) => {
                let ghost ms = models_of(a@);
                proof {
                    lemma_models_of(a@);
                }
                let mut out = String::from_str("[");
                let mut i: usize = 0;
                while i < a.len()
                    invariant
                        *self == Value::Array(*a),
                        ms == models_of(a@),
                        ms.len() == a@.len(),
                        forall|j: int| 0 <= j < a@.len() ==> ms[j] == #[trigger] a@[j].model(),
                        i <= a.len(),
                        out@ == "["@ + render_list(ms.take(i as int)),
                    decreases a.len() - i,
                {
                    if i > 0 {
                        out.append(", ");
                    }
                    proof {
                        assert(decreases_to!(*self => self->Array_0));
                        assert(decreases_to!(*a => a@));
                        assert(decreases_to!(a@ => a@[i as int]));
                    }
                    let piece = a[i].render();
                    out.append(piece.as_str());
                    proof {
                        lemma_render_list_push(ms.take(i as int), ms[i as int]);
                        assert(ms.take(i as int).push(ms[i as int]) =~= ms.take(i as int + 1));
                        if i > 0 {
                            assert(out@ =~= "["@ + render_list(ms.take(i as int + 1)));
                        } else {
                            assert(out@ =~= "["@ + render_list(ms.take(1)));
                        }
                    }
                    i = i + 1;
                }
                out.append("]");
                proof {
                    assert(ms.take(a@.len() as int) =~= ms);
                    assert(out@ =~= "["@ + render_list(ms) + "]"@);
                }
                out
            },
        }
    }
}

} // verus!
