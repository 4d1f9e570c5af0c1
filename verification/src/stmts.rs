//! The evaluation of statements, and the run of a program.

use vstd::prelude::*;
use crate::ast::{Expression, Statement, view_statements};
use crate::frame::{FnDef, StackFrame, UserFn};
use crate::eval::eval;
use crate::loops::eval_for;
use crate::semantics::{eval_stmt_spec, eval_stmts_spec, outcome, run_spec, stmts_from};
use crate::unit::{Answers, BreakResult, EvalResult, Session, view_result};
use crate::value::{Fault, Value, ValueView};

verus! {

/// The result of a run and what the run wrote.
#[derive(Debug, PartialEq)]
pub struct Report {
    pub result: EvalResult,
    pub output: Vec<u8>,
}

/// Runs a list of statements in `frame`, as `eval_stmts_spec` says.
pub fn eval_stmts<'a>(stmts: &'a Vec<Statement>, frame: &mut StackFrame<'a>, session: &mut Session<'_>, depth: usize) -> (r: EvalResult)
    ensures
        outcome(r, *final(frame), *final(session)) == eval_stmts_spec(view_statements(*stmts), old(frame)@, old(session)@, depth as nat),
    decreases depth, view_statements(*stmts), stmts@.len(),
{
    let ghost views = view_statements(*stmts);
    let mut last_result = Value::Integer(0);
    let mut i: usize = 0;
    while i < stmts.len()
        invariant
            i <= stmts.len(),
            views == view_statements(*stmts),
            stmts_from(views, 0, ValueView::Integer(0), old(frame)@, old(session)@, depth as nat) == stmts_from(
                views,
                i as int,
                last_result@,
                frame@,
                session@,
                depth as nat,
            ),
        decreases stmts.len() - i,
    {
        last_result = eval_stmt(&stmts[i], last_result, frame, session, depth)?;
        i += 1;
    }
    Ok(last_result)
}

/// Runs one statement in `frame`, as `eval_stmt_spec` says.
pub fn eval_stmt<'a>(stmt: &'a Statement, last: Value, frame: &mut StackFrame<'a>, session: &mut Session<'_>, depth: usize) -> (r: EvalResult)
    ensures
        outcome(r, *final(frame), *final(session)) == eval_stmt_spec(stmt@, last@, old(frame)@, old(session)@, depth as nat),
    decreases depth, stmt@, 1nat,
{
    match stmt {
        Statement::Expression(expr) => eval(expr, frame, session, depth),
        Statement::LetDef(name, expr) => {
            let value = eval(expr, frame, session, depth)?;
            frame.vars.insert(name.clone(), value);
            Ok(last)
        },
        Statement::LetAssign(name, expr) => {
            if frame.vars.get(name.as_slice()).is_none() {
                return Err(BreakResult::Fault(Fault::UndeclaredAssignment));
            }
            let value = eval(expr, frame, session, depth)?;
            frame.vars.insert(name.clone(), value);
            Ok(last)
        },
        Statement::For { .. } => eval_for(stmt, last, frame, session, depth),
        Statement::FnDef { name, args, stmts } => {
            frame.funcs.insert(name.clone(), FnDef::User(UserFn { args, stmts }));
            Ok(last)
        },
        Statement::Return(expr) => {
            let value = eval(expr, frame, session, depth)?;
            Err(BreakResult::Return(value))
        },
        Statement::Break => Err(BreakResult::Break),
        Statement::Continue => Err(BreakResult::Continue),
    }
}

/// Runs a program with the answers that the floating-point unit has given so far, calls
/// nesting at most `depth` deep. Where the result is pending on a request, the run needs
/// the answer to it after those it was given.
pub fn run(program: &Vec<Statement>, answers: &Answers, depth: usize) -> (r: Report)
    ensures
        (view_result(r.result), r.output@) == run_spec(view_statements(*program), answers@, depth as nat),
{
    let mut frame = StackFrame::new();
    let mut session = Session::new(answers);
    let result = eval_stmts(program, &mut frame, &mut session, depth);
    Report { result, output: session.output }
}

} // verus!
