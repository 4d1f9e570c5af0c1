//! What holds of every program, proved from the meaning of programs in
//! [`crate::semantics`] and of operators in [`crate::ops`].

use vstd::prelude::*;
use vstd::string::*;
use crate::ast::{ArithOp, ExpressionView, StatementView};
use crate::frame::{get_fn_spec, push_stack_spec, FnDefView, FrameView};
use crate::ops::{binary_op_spec, coerce_f64_spec, float_result, index_spec};
use crate::semantics::{bind_args, call_spec, eval_spec, eval_stmt_spec, for_loop_spec, stmts_from, Outcome};
use crate::unit::{ask_number_spec, BreakResultView, RequestView, SessionView};
use crate::value::{Fault, ValueView};

verus! {

/// The sum, the difference and the product of two integers are integers, computed in
/// integer arithmetic that wraps around, and nothing is asked of the unit.
pub proof fn law_integers_stay_integers(a: i64, b: i64, s: SessionView)
    ensures
        binary_op_spec(ArithOp::Add, ValueView::Integer(a), ValueView::Integer(b), s) == (
            Ok::<ValueView, BreakResultView>(ValueView::Integer(a.wrapping_add(b))),
            s,
        ),
        binary_op_spec(ArithOp::Sub, ValueView::Integer(a), ValueView::Integer(b), s) == (
            Ok::<ValueView, BreakResultView>(ValueView::Integer(a.wrapping_sub(b))),
            s,
        ),
        binary_op_spec(ArithOp::Mul, ValueView::Integer(a), ValueView::Integer(b), s) == (
            Ok::<ValueView, BreakResultView>(ValueView::Integer(a.wrapping_mul(b))),
            s,
        ),
{
}

/// An operator between two expressions whose values are integers has the integer for its
/// value that the operator makes of them.
pub proof fn law_integer_expressions(op: ArithOp, lhs: ExpressionView, rhs: ExpressionView, frame: FrameView, s: SessionView, depth: nat, a: i64, b: i64)
    requires
        op != ArithOp::Div,
        eval_spec(lhs, frame, s, depth).result == Ok::<ValueView, BreakResultView>(ValueView::Integer(a)),
        eval_spec(rhs, eval_spec(lhs, frame, s, depth).frame, eval_spec(lhs, frame, s, depth).session, depth).result == Ok::<
            ValueView,
            BreakResultView,
        >(ValueView::Integer(b)),
    ensures
        eval_spec(ExpressionView::Arith(op, Box::new(lhs), Box::new(rhs)), frame, s, depth).result == Ok::<ValueView, BreakResultView>(
            ValueView::Integer(
                match op {
                    ArithOp::Add => a.wrapping_add(b),
                    ArithOp::Sub => a.wrapping_sub(b),
                    _ => a.wrapping_mul(b),
                },
            ),
        ),
{
}

/// With a number on its left an operator of arithmetic has a number for its result, the
/// one that the unit answers: it is asked for the operator on the left number and on the
/// right side made a number. The same holds with a number on the right.
pub proof fn law_numbers_force_numbers(op: ArithOp, a: u64, other: ValueView, s: SessionView)
    ensures
        coerce_f64_spec(other, s).0 is Ok ==> binary_op_spec(op, ValueView::Float(a), other, s) == float_result(
            ask_number_spec(RequestView::Arith(op, a, coerce_f64_spec(other, s).0->Ok_0), coerce_f64_spec(other, s).1),
        ),
        coerce_f64_spec(other, s).0 is Ok && !(other is Float) ==> binary_op_spec(op, other, ValueView::Float(a), s) == float_result(
            ask_number_spec(RequestView::Arith(op, coerce_f64_spec(other, s).0->Ok_0, a), coerce_f64_spec(other, s).1),
        ),
        binary_op_spec(op, ValueView::Float(a), other, s).0 matches Ok(v) ==> v is Float,
        binary_op_spec(op, other, ValueView::Float(a), s).0 matches Ok(v) ==> v is Float,
{
}

/// Two texts add up to the one followed by the other; no other operator of arithmetic
/// takes two texts.
pub proof fn law_texts_only_join(op: ArithOp, a: Seq<u8>, b: Seq<u8>, s: SessionView)
    ensures
        binary_op_spec(ArithOp::Add, ValueView::Text(a), ValueView::Text(b), s) == (Ok::<ValueView, BreakResultView>(ValueView::Text(a + b)), s),
        op != ArithOp::Add ==> binary_op_spec(op, ValueView::Text(a), ValueView::Text(b), s) == (
            Err::<ValueView, BreakResultView>(BreakResultView::Fault(Fault::TypeMismatch)),
            s,
        ),
{
}

/// A list of statements that comes to a `break` or a `continue` ends there with it, and
/// changes nothing more.
pub proof fn law_break_ends_list(stmts: Seq<StatementView>, i: int, last: ValueView, frame: FrameView, s: SessionView, depth: nat)
    requires
        0 <= i < stmts.len(),
        stmts[i] is Break || stmts[i] is Continue,
    ensures
        stmts[i] is Break ==> stmts_from(stmts, i, last, frame, s, depth) == (Outcome {
            result: Err(BreakResultView::Break),
            frame,
            session: s,
        }),
        stmts[i] is Continue ==> stmts_from(stmts, i, last, frame, s, depth) == (Outcome {
            result: Err(BreakResultView::Continue),
            frame,
            session: s,
        }),
{
    let o = eval_stmt_spec(stmts[i], last, frame, s, depth);
    assert(o.result is Err && o.frame == frame && o.session == s);
}

/// A call of a declared function is a fault where a `break` or a `continue` comes out of
/// the function's body: no loop of the caller takes it.
pub proof fn law_call_boundary(def: FnDefView, args: Seq<ValueView>, frame: FrameView, s: SessionView, depth: nat)
    requires
        def is User,
        ({
            let body = stmts_from(def->stmts, 0, ValueView::Integer(0), bind_args(push_stack_spec(frame), def->args, args, 0), s, depth);
            body.result == Err::<ValueView, BreakResultView>(BreakResultView::Break) || body.result == Err::<ValueView, BreakResultView>(
                BreakResultView::Continue,
            )
        }),
    ensures
        call_spec(def, args, frame, s, depth).0 == Err::<ValueView, BreakResultView>(BreakResultView::Fault(Fault::IllegalControlFlow)),
{
}

/// A call of a declared function whose body begins with a `break` or a `continue`, which
/// no loop is around, is a fault, whatever the arguments are.
pub proof fn law_break_outside_loop(def: FnDefView, args: Seq<ValueView>, frame: FrameView, s: SessionView, depth: nat)
    requires
        def matches FnDefView::User { stmts, .. } && stmts.len() > 0 && (stmts[0] is Break || stmts[0] is Continue),
    ensures
        call_spec(def, args, frame, s, depth) == (Err::<ValueView, BreakResultView>(BreakResultView::Fault(Fault::IllegalControlFlow)), s),
{
    let callee = bind_args(push_stack_spec(frame), def->args, args, 0);
    law_break_ends_list(def->stmts, 0, ValueView::Integer(0), callee, s, depth);
}

/// Assigning to a name that the current frame does not bind is a fault, and changes
/// nothing.
pub proof fn law_undeclared_assignment(name: Seq<u8>, e: ExpressionView, last: ValueView, frame: FrameView, s: SessionView, depth: nat)
    requires
        !frame.vars.dom().contains(name),
    ensures
        eval_stmt_spec(StatementView::LetAssign(name, e), last, frame, s, depth) == (Outcome {
            result: Err(BreakResultView::Fault(Fault::UndeclaredAssignment)),
            frame,
            session: s,
        }),
{
}

/// After a name was declared, an assignment to it whose expression has a value goes well,
/// and the name then is bound to that value; reading it gives that value, unless the name
/// is one of the two that are read as constants.
pub proof fn law_declare_then_assign(
    name: Seq<u8>,
    first: ExpressionView,
    second: ExpressionView,
    last: ValueView,
    frame: FrameView,
    s: SessionView,
    depth: nat,
)
    requires
        eval_spec(first, frame, s, depth).result is Ok,
        ({
            let declared = eval_stmt_spec(StatementView::LetDef(name, first), last, frame, s, depth);
            eval_spec(second, declared.frame, declared.session, depth).result is Ok
        }),
    ensures
        ({
            let declared = eval_stmt_spec(StatementView::LetDef(name, first), last, frame, s, depth);
            let value = eval_spec(second, declared.frame, declared.session, depth).result->Ok_0;
            let assigned = eval_stmt_spec(StatementView::LetAssign(name, second), last, declared.frame, declared.session, depth);
            &&& declared.result == Ok::<ValueView, BreakResultView>(last)
            &&& assigned.result == Ok::<ValueView, BreakResultView>(last)
            &&& assigned.frame.vars.dom().contains(name)
            &&& assigned.frame.vars[name] == value
            &&& name != "pi".spec_bytes() && name != "nan".spec_bytes() ==> eval_spec(
                ExpressionView::Ident(name),
                assigned.frame,
                assigned.session,
                depth,
            ).result == Ok::<ValueView, BreakResultView>(value)
        }),
{
}

/// Reading an array at an integer index gives the item at that index where the index is
/// within the array, and is a fault where it is not.
pub proof fn law_index_within_bounds(name: Seq<u8>, index: ExpressionView, frame: FrameView, s: SessionView, depth: nat, items: Seq<ValueView>, i: i64)
    requires
        frame.vars.dom().contains(name),
        frame.vars[name] == ValueView::Array(items),
        eval_spec(index, frame, s, depth).result == Ok::<ValueView, BreakResultView>(ValueView::Integer(i)),
    ensures
        eval_spec(ExpressionView::ArrayIndex(name, Box::new(index)), frame, s, depth).result == (if 0 <= i < items.len() {
            Ok::<ValueView, BreakResultView>(items[i as int])
        } else {
            Err(BreakResultView::Fault(Fault::IndexOutOfBounds))
        }),
        index_spec(ValueView::Array(items), i) == (if 0 <= i < items.len() {
            Ok::<ValueView, BreakResultView>(items[i as int])
        } else {
            Err(BreakResultView::Fault(Fault::IndexOutOfBounds))
        }),
{
}

/// A loop whose step is not positive, or whose start is not below its end, runs no round:
/// it changes nothing, and the value of the list stays what it was.
pub proof fn law_loop_without_rounds(
    loop_var: Seq<u8>,
    start: int,
    end: int,
    step: int,
    stmts: Seq<StatementView>,
    last: ValueView,
    frame: FrameView,
    s: SessionView,
    depth: nat,
)
    requires
        step <= 0 || start >= end,
    ensures
        for_loop_spec(loop_var, start, end, step, stmts, last, frame, s, depth) == (Outcome { result: Ok(last), frame, session: s }),
{
}

/// The body of a called function sees the functions of its caller and none of its
/// variables: in a frame that was just made inside another, a name means the function that
/// it means outside, and reading a variable is a fault, unless the name is one of the two
/// that are read as constants.
pub proof fn law_names_resolve_unlike(name: Seq<u8>, frame: FrameView, s: SessionView, depth: nat)
    ensures
        get_fn_spec(push_stack_spec(frame), name) == get_fn_spec(frame, name),
        name != "pi".spec_bytes() && name != "nan".spec_bytes() ==> eval_spec(ExpressionView::Ident(name), push_stack_spec(frame), s, depth).result
            == Err::<ValueView, BreakResultView>(BreakResultView::Fault(Fault::UndefinedVariable)),
{
    assert(get_fn_spec(push_stack_spec(frame), name) == get_fn_spec(frame, name)) by {
        reveal_with_fuel(get_fn_spec, 2);
    }
}

} // verus!
