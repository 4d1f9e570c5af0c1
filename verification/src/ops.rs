//! Operators, conversions and the display of values.

use vstd::prelude::*;
use vstd::string::*;
use crate::ast::{ArithOp, CompareOp};
use crate::text::{append, joined, decimal, decimal_of, integer_of, lex_order, parse_integer, quote, quoted_text, text_order, Order};
use crate::unit::{ask_number_spec, ask_text_spec, view_plain, view_result, view_text, BreakResult, BreakResultView, EvalResult, EvalResultView, Request, RequestView, Session, SessionView};
use crate::value::{lemma_view_array, view_values, Fault, Value, ValueView};

verus! {

/// The 64 bits of the number pi.
pub const PI_BITS: u64 = 0x4009_21FB_5444_2D18;

/// The 64 bits of the number that is no number.
pub const NAN_BITS: u64 = 0x7FF8_0000_0000_0000;

/// The 64 bits of the number 1.
pub const ONE_BITS: u64 = 0x3FF0_0000_0000_0000;

/// The 64 bits of the number 0.
pub const ZERO_BITS: u64 = 0;

/// Whether `bits` are those of a number that is no number: the exponent all ones, the
/// fraction not zero.
pub open spec fn is_nan_bits(bits: u64) -> bool {
    (bits & 0x7FFF_FFFF_FFFF_FFFF) > 0x7FF0_0000_0000_0000
}

/// Whether `bits` are those of a zero, of either sign.
pub open spec fn is_zero_bits(bits: u64) -> bool {
    (bits & 0x7FFF_FFFF_FFFF_FFFF) == 0
}

/// The order that an answer of the unit to a comparison means.
pub open spec fn decode_order(n: u64) -> Order {
    if n == 0 {
        Order::Less
    } else if n == 1 {
        Order::Equal
    } else if n == 2 {
        Order::Greater
    } else {
        Order::Unordered
    }
}

/// The quotient of two integers, cut toward zero.
pub open spec fn quotient(a: int, b: int) -> int {
    let q = (if a < 0 { -a } else { a }) / (if b < 0 { -b } else { b });
    if (a < 0) != (b < 0) {
        -q
    } else {
        q
    }
}

/// The result of an operator on two integers: sums, differences and products wrap around,
/// a quotient is cut toward zero, and a division that has no quotient within `i64` is a
/// fault.
pub open spec fn integer_op(op: ArithOp, a: i64, b: i64) -> EvalResultView {
    match op {
        ArithOp::Add => Ok(ValueView::Integer(a.wrapping_add(b))),
        ArithOp::Sub => Ok(ValueView::Integer(a.wrapping_sub(b))),
        ArithOp::Mul => Ok(ValueView::Integer(a.wrapping_mul(b))),
        ArithOp::Div => if b == 0 || (a == i64::MIN && b == -1) {
            Err(BreakResultView::Fault(Fault::IntegerDivision))
        } else {
            Ok(ValueView::Integer(quotient(a as int, b as int) as i64))
        },
    }
}

/// The result of an operator on two texts: only `+` is defined, and joins them.
pub open spec fn text_op(op: ArithOp, a: Seq<u8>, b: Seq<u8>) -> EvalResultView {
    if op == ArithOp::Add {
        Ok(ValueView::Text(a + b))
    } else {
        Err(BreakResultView::Fault(Fault::TypeMismatch))
    }
}

/// A value made into a number: a number is itself, an integer is what the unit makes of
/// it, anything else is a fault.
pub open spec fn coerce_f64_spec(v: ValueView, s: SessionView) -> (Result<u64, BreakResultView>, SessionView) {
    match v {
        ValueView::Float(bits) => (Ok(bits), s),
        ValueView::Integer(n) => ask_number_spec(RequestView::FromInteger(n), s),
        _ => (Err(BreakResultView::Fault(Fault::TypeMismatch)), s),
    }
}

/// A value made into an integer: a number is cut by the unit, an integer is itself, a text
/// is read as `integer_of` says, anything else is a fault.
pub open spec fn as_i64_spec(v: ValueView, s: SessionView) -> (Result<i64, BreakResultView>, SessionView) {
    match v {
        ValueView::Float(bits) => match ask_number_spec(RequestView::Truncate(bits), s) {
            (Ok(n), s1) => (Ok(n as i64), s1),
            (Err(b), s1) => (Err(b), s1),
        },
        ValueView::Integer(n) => (Ok(n), s),
        ValueView::Text(text) => match integer_of(text) {
            Some(n) => (Ok(n), s),
            None => (Err(BreakResultView::Fault(Fault::TypeMismatch)), s),
        },
        ValueView::Array(_) => (Err(BreakResultView::Fault(Fault::TypeMismatch)), s),
    }
}

/// A value made into a text: a number is displayed by the unit, an integer is written in
/// decimal, a text is itself, an array is a fault.
pub open spec fn coerce_str_spec(v: ValueView, s: SessionView) -> (Result<Seq<u8>, BreakResultView>, SessionView) {
    match v {
        ValueView::Float(bits) => ask_text_spec(RequestView::Display(bits), s),
        ValueView::Integer(n) => (Ok(decimal_of(n as int)), s),
        ValueView::Text(text) => (Ok(text), s),
        ValueView::Array(_) => (Err(BreakResultView::Fault(Fault::TypeMismatch)), s),
    }
}

/// Whether a value counts as true: a number or an integer that is not zero. A text or an
/// array is a fault.
pub open spec fn truthy_spec(v: ValueView) -> Result<bool, BreakResultView> {
    match v {
        ValueView::Float(bits) => Ok(!is_zero_bits(bits)),
        ValueView::Integer(n) => Ok(n != 0),
        _ => Err(BreakResultView::Fault(Fault::TypeMismatch)),
    }
}

/// The number that the unit answers, as a value.
pub open spec fn float_result(r: (Result<u64, BreakResultView>, SessionView)) -> (EvalResultView, SessionView) {
    match r.0 {
        Ok(bits) => (Ok(ValueView::Float(bits)), r.1),
        Err(b) => (Err(b), r.1),
    }
}

/// The result of an operator of arithmetic. With a number on either side the other side is
/// made a number and the unit computes; two integers and two texts are computed here; any
/// other pair is a fault.
pub open spec fn binary_op_spec(op: ArithOp, lhs: ValueView, rhs: ValueView, s: SessionView) -> (EvalResultView, SessionView) {
    match (lhs, rhs) {
        (ValueView::Float(a), _) => match coerce_f64_spec(rhs, s) {
            (Ok(b), s1) => float_result(ask_number_spec(RequestView::Arith(op, a, b), s1)),
            (Err(e), s1) => (Err(e), s1),
        },
        (_, ValueView::Float(b)) => match coerce_f64_spec(lhs, s) {
            (Ok(a), s1) => float_result(ask_number_spec(RequestView::Arith(op, a, b), s1)),
            (Err(e), s1) => (Err(e), s1),
        },
        (ValueView::Integer(a), ValueView::Integer(b)) => (integer_op(op, a, b), s),
        (ValueView::Text(a), ValueView::Text(b)) => (text_op(op, a, b), s),
        _ => (Err(BreakResultView::Fault(Fault::TypeMismatch)), s),
    }
}

/// The order that the unit finds between two numbers.
pub open spec fn float_order(a: u64, b: u64, s: SessionView) -> (Result<Order, BreakResultView>, SessionView) {
    match ask_number_spec(RequestView::Compare(a, b), s) {
        (Ok(n), s1) => (Ok(decode_order(n)), s1),
        (Err(e), s1) => (Err(e), s1),
    }
}

/// How one value stands to another. Numbers and integers compare with each other, an
/// integer beside a number being made a number first; texts compare with texts; any other
/// pair is a fault.
pub open spec fn compare_spec(lhs: ValueView, rhs: ValueView, s: SessionView) -> (Result<Order, BreakResultView>, SessionView) {
    match (lhs, rhs) {
        (ValueView::Float(a), ValueView::Float(b)) => float_order(a, b, s),
        (ValueView::Integer(a), ValueView::Integer(b)) => (
            Ok(
                if a < b {
                    Order::Less
                } else if a > b {
                    Order::Greater
                } else {
                    Order::Equal
                },
            ),
            s,
        ),
        (ValueView::Float(a), ValueView::Integer(b)) => match ask_number_spec(RequestView::FromInteger(b), s) {
            (Ok(y), s1) => float_order(a, y, s1),
            (Err(e), s1) => (Err(e), s1),
        },
        (ValueView::Integer(a), ValueView::Float(b)) => match ask_number_spec(RequestView::FromInteger(a), s) {
            (Ok(x), s1) => float_order(x, b, s1),
            (Err(e), s1) => (Err(e), s1),
        },
        (ValueView::Text(a), ValueView::Text(b)) => (Ok(lex_order(a, b)), s),
        _ => (Err(BreakResultView::Fault(Fault::TypeMismatch)), s),
    }
}

/// The value of a comparison: the integer 1 where the operands stand as the operator
/// says, else the integer 0.
pub open spec fn relation_spec(op: CompareOp, lhs: ValueView, rhs: ValueView, s: SessionView) -> (EvalResultView, SessionView) {
    match compare_spec(lhs, rhs, s) {
        (Ok(order), s1) => (
            Ok(
                ValueView::Integer(
                    if (op == CompareOp::Gt && order == Order::Greater) || (op == CompareOp::Lt && order == Order::Less) {
                        1
                    } else {
                        0
                    },
                ),
            ),
            s1,
        ),
        (Err(e), s1) => (Err(e), s1),
    }
}

/// The item of an array at an index; outside the array's bounds it is a fault, and so is
/// indexing what is no array.
pub open spec fn index_spec(array: ValueView, index: i64) -> EvalResultView {
    match array {
        ValueView::Array(items) => if 0 <= index < items.len() {
            Ok(items[index as int])
        } else {
            Err(BreakResultView::Fault(Fault::IndexOutOfBounds))
        },
        _ => Err(BreakResultView::Fault(Fault::TypeMismatch)),
    }
}

/// The text that displays a value. An array is `[`, its items with `, ` between them, and
/// `]`; a text is itself, without quotes.
pub open spec fn fmt_spec(v: ValueView, s: SessionView) -> (Result<Seq<u8>, BreakResultView>, SessionView)
    decreases v, 0nat,
{
    match v {
        ValueView::Float(bits) => ask_text_spec(RequestView::Display(bits), s),
        ValueView::Integer(n) => (Ok(decimal_of(n as int)), s),
        ValueView::Text(text) => (Ok(text), s),
        ValueView::Array(items) => fmt_items_spec(items, 0, "[".spec_bytes(), s),
    }
}

/// The display of an array from its item `i` on, after `acc`.
pub open spec fn fmt_items_spec(items: Seq<ValueView>, i: int, acc: Seq<u8>, s: SessionView) -> (Result<Seq<u8>, BreakResultView>, SessionView)
    decreases items, items.len() - i,
{
    if 0 <= i < items.len() {
        match fmt_spec(items[i], s) {
            (Ok(text), s1) => fmt_items_spec(
                items,
                i + 1,
                if i > 0 {
                    acc + ", ".spec_bytes() + text
                } else {
                    acc + text
                },
                s1,
            ),
            (Err(e), s1) => (Err(e), s1),
        }
    } else {
        (Ok(acc + "]".spec_bytes()), s)
    }
}

/// The debugging text of a text whose quoted form is `quoted`.
pub open spec fn label_text_spec(quoted: Seq<u8>) -> Seq<u8> {
    "Str(".spec_bytes() + quoted + ")".spec_bytes()
}

/// The text that shows how a value is built: the name of its kind, and in brackets what
/// it holds. A text is quoted as `quoted_text` says.
pub open spec fn fmt_debug_spec(v: ValueView, s: SessionView) -> (Result<Seq<u8>, BreakResultView>, SessionView)
    decreases v, 0nat,
{
    match v {
        ValueView::Float(bits) => match ask_text_spec(RequestView::Debug(bits), s) {
            (Ok(text), s1) => (Ok("F64(".spec_bytes() + text + ")".spec_bytes()), s1),
            (Err(e), s1) => (Err(e), s1),
        },
        ValueView::Integer(n) => (Ok("I64(".spec_bytes() + decimal_of(n as int) + ")".spec_bytes()), s),
        ValueView::Text(text) => (Ok(label_text_spec(quoted_text(text))), s),
        ValueView::Array(items) => fmt_debug_items_spec(items, 0, "Array([".spec_bytes(), s),
    }
}

/// The debugging text of an array from its item `i` on, after `acc`.
pub open spec fn fmt_debug_items_spec(items: Seq<ValueView>, i: int, acc: Seq<u8>, s: SessionView) -> (Result<Seq<u8>, BreakResultView>, SessionView)
    decreases items, items.len() - i,
{
    if 0 <= i < items.len() {
        match fmt_debug_spec(items[i], s) {
            (Ok(text), s1) => fmt_debug_items_spec(
                items,
                i + 1,
                if i > 0 {
                    acc + ", ".spec_bytes() + text
                } else {
                    acc + text
                },
                s1,
            ),
            (Err(e), s1) => (Err(e), s1),
        }
    } else {
        (Ok(acc + "])".spec_bytes()), s)
    }
}

/// Makes a value a number, as `coerce_f64_spec` says.
pub fn coerce_f64(a: &Value, session: &mut Session<'_>) -> (r: Result<u64, BreakResult>)
    ensures
        (view_plain(r), final(session)@) == coerce_f64_spec(a@, old(session)@),
{
    match a {
        Value::Float(v) => Ok(*v),
        Value::Integer(v) => session.ask_number(Request::FromInteger(*v)),
        _ => Err(BreakResult::Fault(Fault::TypeMismatch)),
    }
}

/// Makes a value a text, as `coerce_str_spec` says.
pub fn coerce_str(a: &Value, session: &mut Session<'_>) -> (r: Result<Vec<u8>, BreakResult>)
    ensures
        (view_text(r), final(session)@) == coerce_str_spec(a@, old(session)@),
{
    match a {
        Value::Float(v) => session.ask_text(Request::Display(*v)),
        Value::Integer(v) => Ok(decimal(*v)),
        Value::Text(v) => Ok(v.clone()),
        Value::Array(_) => Err(BreakResult::Fault(Fault::TypeMismatch)),
    }
}

/// Whether a value counts as true, as `truthy_spec` says.
pub fn truthy(a: &Value) -> (r: Result<bool, BreakResult>)
    ensures
        view_plain(r) == truthy_spec(a@),
{
    match a {
        Value::Float(v) => Ok((*v & 0x7FFF_FFFF_FFFF_FFFF) != 0),
        Value::Integer(v) => Ok(*v != 0),
        _ => Err(BreakResult::Fault(Fault::TypeMismatch)),
    }
}

/// The debugging text of a text, made of its quoted form.
pub fn label_text(quoted: &[u8]) -> (r: Vec<u8>)
    ensures
        r@ == label_text_spec(quoted@),
{
    let mut out = "Str(".as_bytes_vec();
    append(&mut out, quoted);
    append(&mut out, ")".as_bytes());
    out
}

/// Whether `bits` are those of a number that is no number.
pub fn is_nan(bits: u64) -> (r: bool)
    ensures
        r == is_nan_bits(bits),
{
    (bits & 0x7FFF_FFFF_FFFF_FFFF) > 0x7FF0_0000_0000_0000
}

/// The quotient of two integers that have one within `i64`, cut toward zero.
fn divide(a: i64, b: i64) -> (r: i64)
    requires
        b != 0,
        !(a == i64::MIN && b == -1),
    ensures
        r == quotient(a as int, b as int),
{
    let x: i128 = a as i128;
    let y: i128 = b as i128;
    let ux: u128 = if x < 0 {
        (-x) as u128
    } else {
        x as u128
    };
    let uy: u128 = if y < 0 {
        (-y) as u128
    } else {
        y as u128
    };
    let q: u128 = ux / uy;
    assert(q <= ux) by (nonlinear_arith)
        requires
            q == ux / uy,
            uy >= 1,
    ;
    assert(uy == 1 ==> q == ux) by (nonlinear_arith)
        requires
            q == ux / uy,
    ;
    assert(uy >= 2 ==> 2 * q <= ux) by (nonlinear_arith)
        requires
            q == ux / uy,
    ;
    let z: i128 = if (x < 0) != (y < 0) {
        -(q as i128)
    } else {
        q as i128
    };
    z as i64
}

/// Computes an operator on two integers, as `integer_op` says.
pub fn integer_arith(op: ArithOp, a: i64, b: i64) -> (r: EvalResult)
    ensures
        view_result(r) == integer_op(op, a, b),
{
    match op {
        ArithOp::Add => Ok(Value::Integer(a.wrapping_add(b))),
        ArithOp::Sub => Ok(Value::Integer(a.wrapping_sub(b))),
        ArithOp::Mul => Ok(Value::Integer(a.wrapping_mul(b))),
        ArithOp::Div => {
            if b == 0 || (a == i64::MIN && b == -1) {
                Err(BreakResult::Fault(Fault::IntegerDivision))
            } else {
                Ok(Value::Integer(divide(a, b)))
            }
        },
    }
}

/// Computes an operator of arithmetic on two values, as `binary_op_spec` says.
pub fn binary_op_str(op: ArithOp, lhs: &Value, rhs: &Value, session: &mut Session<'_>) -> (r: EvalResult)
    ensures
        (view_result(r), final(session)@) == binary_op_spec(op, lhs@, rhs@, old(session)@),
{
    match (lhs, rhs) {
        (Value::Float(a), _) => {
            let b = coerce_f64(rhs, session)?;
            let bits = session.ask_number(Request::Arith(op, *a, b))?;
            Ok(Value::Float(bits))
        },
        (_, Value::Float(b)) => {
            let a = coerce_f64(lhs, session)?;
            let bits = session.ask_number(Request::Arith(op, a, *b))?;
            Ok(Value::Float(bits))
        },
        (Value::Integer(a), Value::Integer(b)) => integer_arith(op, *a, *b),
        (Value::Text(a), Value::Text(b)) => {
            if op == ArithOp::Add {
                Ok(Value::Text(joined(a.as_slice(), b.as_slice())))
            } else {
                Err(BreakResult::Fault(Fault::TypeMismatch))
            }
        },
        _ => Err(BreakResult::Fault(Fault::TypeMismatch)),
    }
}

/// Asks the unit how one number stands to another.
fn order_floats(a: u64, b: u64, session: &mut Session<'_>) -> (r: Result<Order, BreakResult>)
    ensures
        (view_plain(r), final(session)@) == float_order(a, b, old(session)@),
{
    let n = session.ask_number(Request::Compare(a, b))?;
    Ok(
        if n == 0 {
            Order::Less
        } else if n == 1 {
            Order::Equal
        } else if n == 2 {
            Order::Greater
        } else {
            Order::Unordered
        },
    )
}

/// The value of a comparison, as `relation_spec` says.
pub fn relation(op: CompareOp, lhs: &Value, rhs: &Value, session: &mut Session<'_>) -> (r: EvalResult)
    ensures
        (view_result(r), final(session)@) == relation_spec(op, lhs@, rhs@, old(session)@),
{
    let order = lhs.compare(rhs, session)?;
    let holds = match op {
        CompareOp::Gt => order == Order::Greater,
        CompareOp::Lt => order == Order::Less,
    };
    Ok(Value::Integer(if holds { 1 } else { 0 }))
}

/// The item of an array at an index, as `index_spec` says.
pub fn item_at(array: &Value, index: i64) -> (r: EvalResult)
    ensures
        view_result(r) == index_spec(array@, index),
{
    match array {
        Value::Array(items) => {
            proof {
                lemma_view_array(*array);
            }
            if 0 <= index && (index as u64) < (items.len() as u64) {
                Ok(items[index as usize].copy())
            } else {
                Err(BreakResult::Fault(Fault::IndexOutOfBounds))
            }
        },
        _ => Err(BreakResult::Fault(Fault::TypeMismatch)),
    }
}

impl Value {
    /// Makes the value an integer, as `as_i64_spec` says.
    pub fn as_i64(&self, session: &mut Session<'_>) -> (r: Result<i64, BreakResult>)
        ensures
            (view_plain(r), final(session)@) == as_i64_spec(self@, old(session)@),
    {
        match self {
            Value::Float(val) => {
                let n = session.ask_number(Request::Truncate(*val))?;
                Ok(n as i64)
            },
            Value::Integer(val) => Ok(*val),
            Value::Text(val) => match parse_integer(val.as_slice()) {
                Some(n) => Ok(n),
                None => Err(BreakResult::Fault(Fault::TypeMismatch)),
            },
            Value::Array(_) => Err(BreakResult::Fault(Fault::TypeMismatch)),
        }
    }

    /// The sum of two values, or two texts joined.
    pub fn add(&self, rhs: &Value, session: &mut Session<'_>) -> (r: EvalResult)
        ensures
            (view_result(r), final(session)@) == binary_op_spec(ArithOp::Add, self@, rhs@, old(session)@),
    {
        binary_op_str(ArithOp::Add, self, rhs, session)
    }

    /// The difference of two values.
    pub fn sub(&self, rhs: &Value, session: &mut Session<'_>) -> (r: EvalResult)
        ensures
            (view_result(r), final(session)@) == binary_op_spec(ArithOp::Sub, self@, rhs@, old(session)@),
    {
        binary_op_str(ArithOp::Sub, self, rhs, session)
    }

    /// The product of two values.
    pub fn mul(&self, rhs: &Value, session: &mut Session<'_>) -> (r: EvalResult)
        ensures
            (view_result(r), final(session)@) == binary_op_spec(ArithOp::Mul, self@, rhs@, old(session)@),
    {
        binary_op_str(ArithOp::Mul, self, rhs, session)
    }

    /// The quotient of two values.
    pub fn div(&self, rhs: &Value, session: &mut Session<'_>) -> (r: EvalResult)
        ensures
            (view_result(r), final(session)@) == binary_op_spec(ArithOp::Div, self@, rhs@, old(session)@),
    {
        binary_op_str(ArithOp::Div, self, rhs, session)
    }

    /// How the value stands to another, as `compare_spec` says.
    pub fn compare(&self, other: &Value, session: &mut Session<'_>) -> (r: Result<Order, BreakResult>)
        ensures
            (view_plain(r), final(session)@) == compare_spec(self@, other@, old(session)@),
    {
        match (self, other) {
            (Value::Float(lhs), Value::Float(rhs)) => order_floats(*lhs, *rhs, session),
            (Value::Integer(lhs), Value::Integer(rhs)) => Ok(
                if *lhs < *rhs {
                    Order::Less
                } else if *lhs > *rhs {
                    Order::Greater
                } else {
                    Order::Equal
                },
            ),
            (Value::Float(lhs), Value::Integer(rhs)) => {
                let y = session.ask_number(Request::FromInteger(*rhs))?;
                order_floats(*lhs, y, session)
            },
            (Value::Integer(lhs), Value::Float(rhs)) => {
                let x = session.ask_number(Request::FromInteger(*lhs))?;
                order_floats(x, *rhs, session)
            },
            (Value::Text(lhs), Value::Text(rhs)) => Ok(text_order(lhs.as_slice(), rhs.as_slice())),
            _ => Err(BreakResult::Fault(Fault::TypeMismatch)),
        }
    }

    /// The text that displays the value, as `fmt_spec` says.
    pub fn fmt(&self, session: &mut Session<'_>) -> (r: Result<Vec<u8>, BreakResult>)
        ensures
            (view_text(r), final(session)@) == fmt_spec(self@, old(session)@),
        decreases self,
    {
        match self {
            Value::Float(v) => session.ask_text(Request::Display(*v)),
            Value::Integer(v) => Ok(decimal(*v)),
            Value::Text(v) => Ok(v.clone()),
            Value::Array(arr) => {
                proof {
                    lemma_view_array(*self);
                }
                let ghost items = view_values(arr@);
                let ghost start = old(session)@;
                let mut out = "[".as_bytes_vec();
                let mut i: usize = 0;
                while i < arr.len()
                    invariant
                        i <= arr.len(),
                        items == view_values(arr@),
                        self@ == ValueView::Array(items),
                        start == old(session)@,
                        fmt_items_spec(items, 0, "[".spec_bytes(), start) == fmt_items_spec(items, i as int, out@, session@),
                        forall|j: int| 0 <= j < arr.len() ==> decreases_to!(self => arr@[j]),
                    decreases arr.len() - i,
                {
                    let text = arr[i].fmt(session)?;
                    if i > 0 {
                        append(&mut out, ", ".as_bytes());
                    }
                    append(&mut out, text.as_slice());
                    i += 1;
                }
                append(&mut out, "]".as_bytes());
                Ok(out)
            },
        }
    }

    /// The text that shows how the value is built, as `fmt_debug_spec` says.
    pub fn fmt_debug(&self, session: &mut Session<'_>) -> (r: Result<Vec<u8>, BreakResult>)
        ensures
            (view_text(r), final(session)@) == fmt_debug_spec(self@, old(session)@),
        decreases self,
    {
        match self {
            Value::Float(v) => {
                let text = session.ask_text(Request::Debug(*v))?;
                let mut out = "F64(".as_bytes_vec();
                append(&mut out, text.as_slice());
                append(&mut out, ")".as_bytes());
                Ok(out)
            },
            Value::Integer(v) => {
                let mut out = "I64(".as_bytes_vec();
                append(&mut out, decimal(*v).as_slice());
                append(&mut out, ")".as_bytes());
                Ok(out)
            },
            Value::Text(v) => Ok(label_text(quote(v.as_slice()).as_slice())),
            Value::Array(arr) => {
                proof {
                    lemma_view_array(*self);
                }
                let ghost items = view_values(arr@);
                let ghost start = old(session)@;
                let mut out = "Array([".as_bytes_vec();
                let mut i: usize = 0;
                while i < arr.len()
                    invariant
                        i <= arr.len(),
                        items == view_values(arr@),
                        self@ == ValueView::Array(items),
                        start == old(session)@,
                        fmt_debug_items_spec(items, 0, "Array([".spec_bytes(), start) == fmt_debug_items_spec(items, i as int, out@, session@),
                        forall|j: int| 0 <= j < arr.len() ==> decreases_to!(self => arr@[j]),
                    decreases arr.len() - i,
                {
                    let text = arr[i].fmt_debug(session)?;
                    if i > 0 {
                        append(&mut out, ", ".as_bytes());
                    }
                    append(&mut out, text.as_slice());
                    i += 1;
                }
                append(&mut out, "])".as_bytes());
                Ok(out)
            },
        }
    }
}

} // verus!
