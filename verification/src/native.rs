//! The functions that the language has from the start.

use vstd::prelude::*;
use vstd::string::*;
use crate::frame::NativeFn;
use crate::ops::{as_i64_spec, coerce_f64, coerce_f64_spec, coerce_str, coerce_str_spec, float_result, fmt_debug_spec, fmt_spec, is_nan, is_nan_bits, ONE_BITS, ZERO_BITS};
use crate::unit::{ask_number_spec, view_result, write_spec, BinaryMath, BreakResult, BreakResultView, EvalResult, EvalResultView, Request, RequestView, Session, SessionView, UnaryMath};
use crate::value::{view_values, Fault, Value, ValueView};

verus! {

/// What a built-in function of one number returns: the unit's answer for the first
/// argument made a number. Without an argument it is a fault.
pub open spec fn unary_spec(f: UnaryMath, args: Seq<ValueView>, s: SessionView) -> (EvalResultView, SessionView) {
    if args.len() < 1 {
        (Err(BreakResultView::Fault(Fault::MissingArgument)), s)
    } else {
        match coerce_f64_spec(args[0], s) {
            (Ok(x), s1) => float_result(ask_number_spec(RequestView::Unary(f, x), s1)),
            (Err(e), s1) => (Err(e), s1),
        }
    }
}

/// What a built-in function of two numbers returns: the unit's answer for the first two
/// arguments made numbers, the first before the second is looked at.
pub open spec fn binary_spec(f: BinaryMath, args: Seq<ValueView>, s: SessionView) -> (EvalResultView, SessionView) {
    if args.len() < 1 {
        (Err(BreakResultView::Fault(Fault::MissingArgument)), s)
    } else {
        match coerce_f64_spec(args[0], s) {
            (Ok(x), s1) => if args.len() < 2 {
                (Err(BreakResultView::Fault(Fault::MissingArgument)), s1)
            } else {
                match coerce_f64_spec(args[1], s1) {
                    (Ok(y), s2) => float_result(ask_number_spec(RequestView::Binary(f, x, y), s2)),
                    (Err(e), s2) => (Err(e), s2),
                }
            },
            (Err(e), s1) => (Err(e), s1),
        }
    }
}

/// What `print` does: it writes `print: `, the display of its first argument and a line
/// end, and returns the integer 0.
pub open spec fn print_spec(args: Seq<ValueView>, s: SessionView) -> (EvalResultView, SessionView) {
    if args.len() < 1 {
        (Err(BreakResultView::Fault(Fault::MissingArgument)), s)
    } else {
        match fmt_spec(args[0], s) {
            (Ok(text), s1) => (
                Ok(ValueView::Integer(0)),
                write_spec(s1, "print: ".spec_bytes() + text + "\n".spec_bytes()),
            ),
            (Err(e), s1) => (Err(e), s1),
        }
    }
}

/// What `puts` does from its argument `i` on: it writes the display of each argument, and
/// returns the number 0.
pub open spec fn puts_spec(args: Seq<ValueView>, i: int, s: SessionView) -> (EvalResultView, SessionView)
    decreases args.len() - i,
{
    if 0 <= i < args.len() {
        match fmt_spec(args[i], s) {
            (Ok(text), s1) => puts_spec(args, i + 1, write_spec(s1, text)),
            (Err(e), s1) => (Err(e), s1),
        }
    } else {
        (Ok(ValueView::Float(ZERO_BITS)), s)
    }
}

/// What `dbg` does: it writes `dbg: `, the debugging text of its first argument and a line
/// end, and returns the integer 0.
pub open spec fn p_dbg_spec(args: Seq<ValueView>, s: SessionView) -> (EvalResultView, SessionView) {
    if args.len() < 1 {
        (Err(BreakResultView::Fault(Fault::MissingArgument)), s)
    } else {
        match fmt_debug_spec(args[0], s) {
            (Ok(text), s1) => (
                Ok(ValueView::Integer(0)),
                write_spec(s1, "dbg: ".spec_bytes() + text + "\n".spec_bytes()),
            ),
            (Err(e), s1) => (Err(e), s1),
        }
    }
}

/// What the conversions `i64`, `f64` and `str` and the test `is_nan` return for their first
/// argument.
pub open spec fn convert_spec(code: NativeFn, args: Seq<ValueView>, s: SessionView) -> (EvalResultView, SessionView) {
    if args.len() < 1 {
        (Err(BreakResultView::Fault(Fault::MissingArgument)), s)
    } else {
        match code {
            NativeFn::ToInteger => match as_i64_spec(args[0], s) {
                (Ok(n), s1) => (Ok(ValueView::Integer(n)), s1),
                (Err(e), s1) => (Err(e), s1),
            },
            NativeFn::ToText => match coerce_str_spec(args[0], s) {
                (Ok(text), s1) => (Ok(ValueView::Text(text)), s1),
                (Err(e), s1) => (Err(e), s1),
            },
            NativeFn::IsNan => match coerce_f64_spec(args[0], s) {
                (Ok(x), s1) => (
                    Ok(
                        ValueView::Float(
                            if is_nan_bits(x) {
                                ONE_BITS
                            } else {
                                ZERO_BITS
                            },
                        ),
                    ),
                    s1,
                ),
                (Err(e), s1) => (Err(e), s1),
            },
            _ => float_result(coerce_f64_spec(args[0], s)),
        }
    }
}

/// What a built-in function returns for its arguments, and what it writes.
pub open spec fn call_native_spec(code: NativeFn, args: Seq<ValueView>, s: SessionView) -> (EvalResultView, SessionView) {
    match code {
        NativeFn::Unary(f) => unary_spec(f, args, s),
        NativeFn::Binary(f) => binary_spec(f, args, s),
        NativeFn::Print => print_spec(args, s),
        NativeFn::Puts => puts_spec(args, 0, s),
        NativeFn::Dbg => p_dbg_spec(args, s),
        _ => convert_spec(code, args, s),
    }
}

/// Applies a built-in function of one number.
pub fn call_unary(f: UnaryMath, args: &Vec<Value>, session: &mut Session<'_>) -> (r: EvalResult)
    ensures
        (view_result(r), final(session)@) == unary_spec(f, view_values(args@), old(session)@),
{
    if args.len() < 1 {
        return Err(BreakResult::Fault(Fault::MissingArgument));
    }
    let x = coerce_f64(&args[0], session)?;
    let bits = session.ask_number(Request::Unary(f, x))?;
    Ok(Value::Float(bits))
}

/// Applies a built-in function of two numbers.
pub fn call_binary(f: BinaryMath, args: &Vec<Value>, session: &mut Session<'_>) -> (r: EvalResult)
    ensures
        (view_result(r), final(session)@) == binary_spec(f, view_values(args@), old(session)@),
{
    if args.len() < 1 {
        return Err(BreakResult::Fault(Fault::MissingArgument));
    }
    let lhs = coerce_f64(&args[0], session)?;
    if args.len() < 2 {
        return Err(BreakResult::Fault(Fault::MissingArgument));
    }
    let rhs = coerce_f64(&args[1], session)?;
    let bits = session.ask_number(Request::Binary(f, lhs, rhs))?;
    Ok(Value::Float(bits))
}

/// The built-in `print`.
pub fn print(values: &Vec<Value>, session: &mut Session<'_>) -> (r: EvalResult)
    ensures
        (view_result(r), final(session)@) == print_spec(view_values(values@), old(session)@),
{
    if values.len() < 1 {
        return Err(BreakResult::Fault(Fault::MissingArgument));
    }
    let text = values[0].fmt(session)?;
    let mut line = "print: ".as_bytes_vec();
    crate::text::append(&mut line, text.as_slice());
    crate::text::append(&mut line, "\n".as_bytes());
    session.write(line.as_slice());
    Ok(Value::Integer(0))
}

/// The built-in `puts`.
pub fn puts_fn(args: &Vec<Value>, session: &mut Session<'_>) -> (r: EvalResult)
    ensures
        (view_result(r), final(session)@) == puts_spec(view_values(args@), 0, old(session)@),
{
    let mut i: usize = 0;
    while i < args.len()
        invariant
            i <= args.len(),
            puts_spec(view_values(args@), 0, old(session)@) == puts_spec(view_values(args@), i as int, session@),
        decreases args.len() - i,
    {
        let text = args[i].fmt(session)?;
        session.write(text.as_slice());
        i += 1;
    }
    Ok(Value::Float(ZERO_BITS))
}

/// The built-in `dbg`.
pub fn p_dbg(values: &Vec<Value>, session: &mut Session<'_>) -> (r: EvalResult)
    ensures
        (view_result(r), final(session)@) == p_dbg_spec(view_values(values@), old(session)@),
{
    if values.len() < 1 {
        return Err(BreakResult::Fault(Fault::MissingArgument));
    }
    let text = values[0].fmt_debug(session)?;
    let mut line = "dbg: ".as_bytes_vec();
    crate::text::append(&mut line, text.as_slice());
    crate::text::append(&mut line, "\n".as_bytes());
    session.write(line.as_slice());
    Ok(Value::Integer(0))
}

/// The built-in conversions and `is_nan`.
pub fn convert(code: NativeFn, args: &Vec<Value>, session: &mut Session<'_>) -> (r: EvalResult)
    ensures
        (view_result(r), final(session)@) == convert_spec(code, view_values(args@), old(session)@),
{
    if args.len() < 1 {
        return Err(BreakResult::Fault(Fault::MissingArgument));
    }
    match code {
        NativeFn::ToInteger => {
            let n = args[0].as_i64(session)?;
            Ok(Value::Integer(n))
        },
        NativeFn::ToText => {
            let text = coerce_str(&args[0], session)?;
            Ok(Value::Text(text))
        },
        NativeFn::IsNan => {
            let x = coerce_f64(&args[0], session)?;
            Ok(Value::Float(if is_nan(x) { ONE_BITS } else { ZERO_BITS }))
        },
        _ => {
            let x = coerce_f64(&args[0], session)?;
            Ok(Value::Float(x))
        },
    }
}

/// Applies a built-in function to its arguments.
pub fn call_native(code: NativeFn, args: &Vec<Value>, session: &mut Session<'_>) -> (r: EvalResult)
    ensures
        (view_result(r), final(session)@) == call_native_spec(code, view_values(args@), old(session)@),
{
    match code {
        NativeFn::Unary(f) => call_unary(f, args, session),
        NativeFn::Binary(f) => call_binary(f, args, session),
        NativeFn::Print => print(args, session),
        NativeFn::Puts => puts_fn(args, session),
        NativeFn::Dbg => p_dbg(args, session),
        _ => convert(code, args, session),
    }
}

} // verus!
