//! The meaning of programs: where the evaluation of an expression, a statement or a list
//! of statements ends, given a frame, the answers of the floating-point unit, and how deep
//! calls may nest.

use vstd::prelude::*;
use vstd::string::*;
use crate::ast::{ExpressionView, StatementView};
use crate::frame::{get_fn_spec, push_stack_spec, top_frame, FnDefView, FrameView, StackFrame};
use crate::native::call_native_spec;
use crate::ops::{as_i64_spec, binary_op_spec, index_spec, relation_spec, truthy_spec, NAN_BITS, PI_BITS};
use crate::unit::{ask_number_spec, session_start, view_result, AnswersView, BreakResult, BreakResultView, EvalResult, EvalResultView, RequestView, Session, SessionView};
use crate::value::{view_values, Fault, Value, ValueView};

verus! {

/// Where an evaluation ends: with what result, in what frame, after what dealings with the
/// world.
pub struct Outcome {
    pub result: EvalResultView,
    pub frame: FrameView,
    pub session: SessionView,
}

/// Where the evaluation of a list of expressions ends.
pub struct ListOutcome {
    pub result: Result<Seq<ValueView>, BreakResultView>,
    pub frame: FrameView,
    pub session: SessionView,
}

/// `frame` with the variable `name` bound to `v`.
pub open spec fn bind(frame: FrameView, name: Seq<u8>, v: ValueView) -> FrameView {
    FrameView { vars: frame.vars.insert(name, v), ..frame }
}

/// `frame` with the function `name` bound to `def`.
pub open spec fn define(frame: FrameView, name: Seq<u8>, def: FnDefView) -> FrameView {
    FrameView { funcs: frame.funcs.insert(name, def), ..frame }
}

/// `frame` with each of the parameters from number `i` on bound to the argument of the
/// same number, as far as both lists reach.
pub open spec fn bind_args(frame: FrameView, names: Seq<Seq<u8>>, args: Seq<ValueView>, i: int) -> FrameView
    decreases names.len() - i,
{
    if 0 <= i < names.len() && i < args.len() {
        bind_args(bind(frame, names[i], args[i]), names, args, i + 1)
    } else {
        frame
    }
}

/// What a call returns for what the body of the function ended with: a `return` ends the
/// call with its value, and a `break` or a `continue` that comes out of the body is a
/// fault.
pub open spec fn finish_call(r: EvalResultView) -> EvalResultView {
    match r {
        Ok(v) => Ok(v),
        Err(BreakResultView::Return(v)) => Ok(v),
        Err(BreakResultView::Break) => Err(BreakResultView::Fault(Fault::IllegalControlFlow)),
        Err(BreakResultView::Continue) => Err(BreakResultView::Fault(Fault::IllegalControlFlow)),
        Err(other) => Err(other),
    }
}

/// The value of an expression in a frame. `depth` is how deep calls may still nest.
pub open spec fn eval_spec(e: ExpressionView, frame: FrameView, s: SessionView, depth: nat) -> Outcome
    decreases depth, e, 0nat,
{
    match e {
        ExpressionView::Ident(name) => Outcome {
            result: if name == "pi".spec_bytes() {
                Ok(ValueView::Float(PI_BITS))
            } else if name == "nan".spec_bytes() {
                Ok(ValueView::Float(NAN_BITS))
            } else if frame.vars.dom().contains(name) {
                Ok(frame.vars[name])
            } else {
                Err(BreakResultView::Fault(Fault::UndefinedVariable))
            },
            frame,
            session: s,
        },
        ExpressionView::NumLiteral(text) => match ask_number_spec(RequestView::Literal(text), s) {
            (Ok(bits), s1) => Outcome { result: Ok(ValueView::Float(bits)), frame, session: s1 },
            (Err(b), s1) => Outcome { result: Err(b), frame, session: s1 },
        },
        ExpressionView::StrLiteral(text) => Outcome { result: Ok(ValueView::Text(text)), frame, session: s },
        ExpressionView::ArrayLiteral(items) => {
            let o = eval_list_spec(items, 0, Seq::empty(), frame, s, depth);
            match o.result {
                Ok(values) => Outcome { result: Ok(ValueView::Array(values)), frame: o.frame, session: o.session },
                Err(b) => Outcome { result: Err(b), frame: o.frame, session: o.session },
            }
        },
        ExpressionView::ArrayIndex(name, index) => if !frame.vars.dom().contains(name) {
            Outcome { result: Err(BreakResultView::Fault(Fault::UndefinedVariable)), frame, session: s }
        } else {
            let o = eval_spec(*index, frame, s, depth);
            match o.result {
                Ok(v) => match as_i64_spec(v, o.session) {
                    (Ok(i), s1) => Outcome { result: index_spec(frame.vars[name], i), frame: o.frame, session: s1 },
                    (Err(b), s1) => Outcome { result: Err(b), frame: o.frame, session: s1 },
                },
                Err(_) => o,
            }
        },
        ExpressionView::FnInvoke(name, args) => {
            let o = eval_list_spec(args, 0, Seq::empty(), frame, s, depth);
            match o.result {
                Ok(values) => match get_fn_spec(o.frame, name) {
                    Some(def) => if depth == 0 {
                        Outcome { result: Err(BreakResultView::Fault(Fault::DepthExceeded)), frame: o.frame, session: o.session }
                    } else {
                        let (r, s1) = call_spec(def, values, o.frame, o.session, (depth - 1) as nat);
                        Outcome { result: r, frame: o.frame, session: s1 }
                    },
                    None => Outcome { result: Err(BreakResultView::Fault(Fault::UndefinedFunction)), frame: o.frame, session: o.session },
                },
                Err(b) => Outcome { result: Err(b), frame: o.frame, session: o.session },
            }
        },
        ExpressionView::Arith(op, lhs, rhs) => {
            let a = eval_spec(*lhs, frame, s, depth);
            match a.result {
                Ok(x) => {
                    let b = eval_spec(*rhs, a.frame, a.session, depth);
                    match b.result {
                        Ok(y) => {
                            let (r, s1) = binary_op_spec(op, x, y, b.session);
                            Outcome { result: r, frame: b.frame, session: s1 }
                        },
                        Err(_) => b,
                    }
                },
                Err(_) => a,
            }
        },
        ExpressionView::Compare(op, lhs, rhs) => {
            let a = eval_spec(*lhs, frame, s, depth);
            match a.result {
                Ok(x) => {
                    let b = eval_spec(*rhs, a.frame, a.session, depth);
                    match b.result {
                        Ok(y) => {
                            let (r, s1) = relation_spec(op, x, y, b.session);
                            Outcome { result: r, frame: b.frame, session: s1 }
                        },
                        Err(_) => b,
                    }
                },
                Err(_) => a,
            }
        },
        ExpressionView::If(cond, t_case, f_case) => {
            let c = eval_spec(*cond, frame, s, depth);
            match c.result {
                Ok(v) => match truthy_spec(v) {
                    Ok(holds) => if holds {
                        stmts_from(t_case, 0, ValueView::Integer(0), c.frame, c.session, depth)
                    } else {
                        match f_case {
                            Some(stmts) => stmts_from(stmts, 0, ValueView::Integer(0), c.frame, c.session, depth),
                            None => Outcome { result: Ok(ValueView::Integer(0)), frame: c.frame, session: c.session },
                        }
                    },
                    Err(b) => Outcome { result: Err(b), frame: c.frame, session: c.session },
                },
                Err(_) => c,
            }
        },
    }
}

/// The values of the expressions of `items` from number `i` on, after `acc`, each
/// evaluated where the one before it ended.
pub open spec fn eval_list_spec(items: Seq<ExpressionView>, i: int, acc: Seq<ValueView>, frame: FrameView, s: SessionView, depth: nat) -> ListOutcome
    decreases depth, items, items.len() - i,
{
    if 0 <= i < items.len() {
        let o = eval_spec(items[i], frame, s, depth);
        match o.result {
            Ok(v) => eval_list_spec(items, i + 1, acc.push(v), o.frame, o.session, depth),
            Err(b) => ListOutcome { result: Err(b), frame: o.frame, session: o.session },
        }
    } else {
        ListOutcome { result: Ok(acc), frame, session: s }
    }
}

/// The body of a declared function; a built-in function has none.
pub open spec fn body_of(def: FnDefView) -> Seq<StatementView> {
    match def {
        FnDefView::User { args, stmts } => stmts,
        FnDefView::Native(_) => Seq::empty(),
    }
}

/// What a call of `def` with `args` from `frame` returns, and the session after it. The
/// body of a declared function runs in a frame of its own inside `frame`, which binds the
/// parameters to the arguments, and `depth` is how deep calls may nest inside it.
pub open spec fn call_spec(def: FnDefView, args: Seq<ValueView>, frame: FrameView, s: SessionView, depth: nat) -> (EvalResultView, SessionView)
    decreases depth, body_of(def), body_of(def).len() + 1,
{
    match def {
        FnDefView::User { args: names, stmts } => {
            let o = stmts_from(
                stmts,
                0,
                ValueView::Integer(0),
                bind_args(push_stack_spec(frame), names, args, 0),
                s,
                depth,
            );
            (finish_call(o.result), o.session)
        },
        FnDefView::Native(code) => call_native_spec(code, args, s),
    }
}

/// Where the statements of `stmts` from number `i` on end, `last` being the value of the
/// statements before them. A statement that ends in no value ends the list.
pub open spec fn stmts_from(stmts: Seq<StatementView>, i: int, last: ValueView, frame: FrameView, s: SessionView, depth: nat) -> Outcome
    decreases depth, stmts, stmts.len() - i,
{
    if 0 <= i < stmts.len() {
        let o = eval_stmt_spec(stmts[i], last, frame, s, depth);
        match o.result {
            Ok(v) => stmts_from(stmts, i + 1, v, o.frame, o.session, depth),
            Err(_) => o,
        }
    } else {
        Outcome { result: Ok(last), frame, session: s }
    }
}

/// Where a list of statements ends. Its value is that of the last statement that has one,
/// the integer 0 where none has.
pub open spec fn eval_stmts_spec(stmts: Seq<StatementView>, frame: FrameView, s: SessionView, depth: nat) -> Outcome {
    stmts_from(stmts, 0, ValueView::Integer(0), frame, s, depth)
}

/// Where the evaluation of the bound of a loop ends.
pub struct BoundOutcome {
    pub result: Result<i64, BreakResultView>,
    pub frame: FrameView,
    pub session: SessionView,
}

/// The integer that the value of a loop's bound makes, where the bound has a value.
pub open spec fn to_bound(o: Outcome) -> BoundOutcome {
    match o.result {
        Ok(v) => {
            let (r, s1) = as_i64_spec(v, o.session);
            BoundOutcome { result: r, frame: o.frame, session: s1 }
        },
        Err(b) => BoundOutcome { result: Err(b), frame: o.frame, session: o.session },
    }
}

/// Where a loop statement ends: its bounds are evaluated to integers, first the start, then
/// the end, then the step, which is 1 where none is written, and then the rounds run.
pub open spec fn eval_for_spec(stmt: StatementView, last: ValueView, frame: FrameView, s: SessionView, depth: nat) -> Outcome
    decreases depth, stmt, 0nat,
{
    match stmt {
        StatementView::For { loop_var, start, end, step, stmts } => {
            let a = to_bound(eval_spec(start, frame, s, depth));
            match a.result {
                Ok(from) => {
                    let b = to_bound(eval_spec(end, a.frame, a.session, depth));
                    match b.result {
                        Ok(to) => {
                            let c = match step {
                                Some(e) => to_bound(eval_spec(e, b.frame, b.session, depth)),
                                None => BoundOutcome { result: Ok(1), frame: b.frame, session: b.session },
                            };
                            match c.result {
                                Ok(by) => for_loop_spec(loop_var, from as int, to as int, by as int, stmts, last, c.frame, c.session, depth),
                                Err(e) => Outcome { result: Err(e), frame: c.frame, session: c.session },
                            }
                        },
                        Err(e) => Outcome { result: Err(e), frame: b.frame, session: b.session },
                    }
                },
                Err(e) => Outcome { result: Err(e), frame: a.frame, session: a.session },
            }
        },
        _ => Outcome { result: Ok(last), frame, session: s },
    }
}

/// Where one statement ends. The result, where it is a value, is the value of the list so
/// far: that of an expression statement or of a loop's last round, else `last`.
pub open spec fn eval_stmt_spec(stmt: StatementView, last: ValueView, frame: FrameView, s: SessionView, depth: nat) -> Outcome
    decreases depth, stmt, 1nat,
{
    match stmt {
        StatementView::Expression(e) => eval_spec(e, frame, s, depth),
        StatementView::LetDef(name, e) => {
            let o = eval_spec(e, frame, s, depth);
            match o.result {
                Ok(v) => Outcome { result: Ok(last), frame: bind(o.frame, name, v), session: o.session },
                Err(_) => o,
            }
        },
        StatementView::LetAssign(name, e) => if !frame.vars.dom().contains(name) {
            Outcome { result: Err(BreakResultView::Fault(Fault::UndeclaredAssignment)), frame, session: s }
        } else {
            let o = eval_spec(e, frame, s, depth);
            match o.result {
                Ok(v) => Outcome { result: Ok(last), frame: bind(o.frame, name, v), session: o.session },
                Err(_) => o,
            }
        },
        StatementView::For { .. } => eval_for_spec(stmt, last, frame, s, depth),
        StatementView::FnDef { name, args, stmts } => Outcome {
            result: Ok(last),
            frame: define(frame, name, FnDefView::User { args, stmts }),
            session: s,
        },
        StatementView::Return(e) => {
            let o = eval_spec(e, frame, s, depth);
            match o.result {
                Ok(v) => Outcome { result: Err(BreakResultView::Return(v)), frame: o.frame, session: o.session },
                Err(_) => o,
            }
        },
        StatementView::Break => Outcome { result: Err(BreakResultView::Break), frame, session: s },
        StatementView::Continue => Outcome { result: Err(BreakResultView::Continue), frame, session: s },
    }
}

/// Where a loop ends that still has the rounds for `i`, `i + step`, ... below `end` to run.
/// Each round binds the loop's variable in the frame that the loop stands in and runs the
/// body there. A `break` ends the loop, a `continue` ends the round, and anything else
/// that is no value ends the loop and the list around it. A step that is not positive
/// gives no round.
pub open spec fn for_loop_spec(
    loop_var: Seq<u8>,
    i: int,
    end: int,
    step: int,
    stmts: Seq<StatementView>,
    last: ValueView,
    frame: FrameView,
    s: SessionView,
    depth: nat,
) -> Outcome
    decreases depth, stmts, stmts.len() + 1 + (if i < end { end - i } else { 0 }),
{
    if i < end && step > 0 {
        let o = stmts_from(stmts, 0, ValueView::Integer(0), bind(frame, loop_var, ValueView::Integer(i as i64)), s, depth);
        match o.result {
            Ok(v) => for_loop_spec(loop_var, i + step, end, step, stmts, v, o.frame, o.session, depth),
            Err(BreakResultView::Break) => Outcome { result: Ok(last), frame: o.frame, session: o.session },
            Err(BreakResultView::Continue) => for_loop_spec(loop_var, i + step, end, step, stmts, last, o.frame, o.session, depth),
            Err(_) => o,
        }
    } else {
        Outcome { result: Ok(last), frame, session: s }
    }
}

/// Where a whole program ends, run in the frame that programs start in: its result and
/// what it wrote.
pub open spec fn run_spec(program: Seq<StatementView>, answers: AnswersView, depth: nat) -> (EvalResultView, Seq<u8>) {
    let o = eval_stmts_spec(program, top_frame(), session_start(answers), depth);
    (o.result, o.session.output)
}

/// The outcome that a result, a frame and a session stand for.
pub open spec fn outcome(r: EvalResult, frame: StackFrame<'_>, session: Session<'_>) -> Outcome {
    Outcome { result: view_result(r), frame: frame@, session: session@ }
}

/// The outcome that a list of values, a frame and a session stand for.
pub open spec fn list_outcome(r: Result<Vec<Value>, BreakResult>, frame: StackFrame<'_>, session: Session<'_>) -> ListOutcome {
    ListOutcome { result: view_list(r), frame: frame@, session: session@ }
}

/// The outcome that the integer of a bound, a frame and a session stand for.
pub open spec fn bound_outcome(r: Result<i64, BreakResult>, frame: StackFrame<'_>, session: Session<'_>) -> BoundOutcome {
    BoundOutcome { result: crate::unit::view_plain(r), frame: frame@, session: session@ }
}

/// What a result that holds a list of values stands for.
pub open spec fn view_list(r: Result<Vec<Value>, BreakResult>) -> Result<Seq<ValueView>, BreakResultView> {
    match r {
        Ok(values) => Ok(view_values(values@)),
        Err(b) => Err(b@),
    }
}

} // verus!
