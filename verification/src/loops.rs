//! The evaluation of loops.

use vstd::prelude::*;
use crate::ast::{Expression, Statement, view_statements};
use crate::frame::StackFrame;
use crate::eval::eval;
use crate::semantics::{bound_outcome, eval_for_spec, eval_spec, for_loop_spec, outcome, to_bound};
use crate::stmts::eval_stmts;
use crate::unit::{BreakResult, EvalResult, Session};
use crate::value::Value;

verus! {

/// Evaluates the bound of a loop to an integer.
pub fn bound<'a>(e: &'a Expression, frame: &mut StackFrame<'a>, session: &mut Session<'_>, depth: usize) -> (r: Result<i64, BreakResult>)
    ensures
        bound_outcome(r, *final(frame), *final(session)) == to_bound(eval_spec(e@, old(frame)@, old(session)@, depth as nat)),
    decreases depth, e@, 1nat,
{
    let v = eval(e, frame, session, depth)?;
    v.as_i64(session)
}

/// Runs a loop statement in `frame`, as `eval_for_spec` says.
pub fn eval_for<'a>(stmt: &'a Statement, last: Value, frame: &mut StackFrame<'a>, session: &mut Session<'_>, depth: usize) -> (r: EvalResult)
    ensures
        outcome(r, *final(frame), *final(session)) == eval_for_spec(stmt@, last@, old(frame)@, old(session)@, depth as nat),
    decreases depth, stmt@, 0nat,
{
    match stmt {
        Statement::For { loop_var, start, end, step, stmts } => {
            let start = bound(start, frame, session, depth)?;
            let end = bound(end, frame, session, depth)?;
            match step {
                Some(e) => {
                    // The step lies two levels below the statement.
                    assert(stmt@->For_step == Some(e@));
                    assert(decreases_to!(stmt@->For_step => e@));
                    assert(decreases_to!(stmt@ => stmt@->For_step));
                    let by = bound(e, frame, session, depth)?;
                    for_loop(loop_var, start, end, by, stmts, last, frame, session, depth)
                },
                None => for_loop(loop_var, start, end, 1, stmts, last, frame, session, depth),
            }
        },
        _ => Ok(last),
    }
}

/// Runs the rounds of a loop for `start`, `start + step`, ... below `end`, as
/// `for_loop_spec` says.
pub fn for_loop<'a>(
    loop_var: &Vec<u8>,
    start: i64,
    end: i64,
    step: i64,
    stmts: &'a Vec<Statement>,
    last: Value,
    frame: &mut StackFrame<'a>,
    session: &mut Session<'_>,
    depth: usize,
) -> (r: EvalResult)
    ensures
        outcome(r, *final(frame), *final(session)) == for_loop_spec(
            loop_var@,
            start as int,
            end as int,
            step as int,
            view_statements(*stmts),
            last@,
            old(frame)@,
            old(session)@,
            depth as nat,
        ),
    decreases depth, view_statements(*stmts), stmts@.len() + 1,
{
    let ghost views = view_statements(*stmts);
    let ghost whole = for_loop_spec(loop_var@, start as int, end as int, step as int, views, last@, old(frame)@, old(session)@, depth as nat);
    let mut last_result = last;
    if step <= 0 {
        return Ok(last_result);
    }
    let mut i: i64 = start;
    while i < end
        invariant
            step > 0,
            views == view_statements(*stmts),
            whole == for_loop_spec(loop_var@, start as int, end as int, step as int, views, last@, old(frame)@, old(session)@, depth as nat),
            whole == for_loop_spec(loop_var@, i as int, end as int, step as int, views, last_result@, frame@, session@, depth as nat),
        decreases (if i < end { end - i } else { 0 }),
    {
        frame.vars.insert(loop_var.clone(), Value::Integer(i));
        match eval_stmts(stmts, frame, session, depth) {
            Ok(val) => {
                last_result = val;
            },
            Err(BreakResult::Break) => {
                return Ok(last_result);
            },
            Err(BreakResult::Continue) => {},
            Err(other) => {
                return Err(other);
            },
        }
        if i > i64::MAX - step {
            assert(whole == for_loop_spec(loop_var@, i + step, end as int, step as int, views, last_result@, frame@, session@, depth as nat));
            return Ok(last_result);
        }
        i = i + step;
    }
    Ok(last_result)
}

} // verus!
