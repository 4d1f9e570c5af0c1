//! The evaluation of expressions and the calls of functions.

use vstd::prelude::*;
use vstd::string::*;
use crate::ast::{Expression, view_expressions, view_names};
use crate::frame::{FnDef, push_stack_spec, StackFrame};
use crate::native::call_native;
use crate::ops::{binary_op_str, item_at, NAN_BITS, PI_BITS, relation, truthy};
use crate::semantics::{bind_args, body_of, call_spec, eval_list_spec, eval_spec, list_outcome, outcome};
use crate::stmts::eval_stmts;
use crate::text::same_bytes;
use crate::unit::{BreakResult, EvalResult, Request, Session, view_result};
use crate::value::{Fault, Value, view_values};

verus! {

/// Evaluates an expression in `frame`, as `eval_spec` says.
pub fn eval<'a>(expr: &'a Expression, frame: &mut StackFrame<'a>, session: &mut Session<'_>, depth: usize) -> (r: EvalResult)
    ensures
        outcome(r, *final(frame), *final(session)) == eval_spec(expr@, old(frame)@, old(session)@, depth as nat),
    decreases depth, expr@, 0nat,
{
    match expr {
        Expression::Ident(id) => {
            if same_bytes(id.as_slice(), "pi".as_bytes()) {
                Ok(Value::Float(PI_BITS))
            } else if same_bytes(id.as_slice(), "nan".as_bytes()) {
                Ok(Value::Float(NAN_BITS))
            } else {
                match frame.vars.get(id.as_slice()) {
                    Some(v) => Ok(v.copy()),
                    None => Err(BreakResult::Fault(Fault::UndefinedVariable)),
                }
            }
        },
        Expression::NumLiteral(n) => {
            let bits = session.ask_number(Request::Literal(n.clone()))?;
            Ok(Value::Float(bits))
        },
        Expression::StrLiteral(s) => Ok(Value::Text(s.clone())),
        Expression::ArrayLiteral(elements) => {
            let values = eval_list(elements, frame, session, depth)?;
            let r = Value::Array(values);
            proof {
                crate::value::lemma_view_array(r);
            }
            Ok(r)
        },
        Expression::ArrayIndex(array, index_expr) => {
            let array = match frame.vars.get(array.as_slice()) {
                Some(v) => v.copy(),
                None => {
                    return Err(BreakResult::Fault(Fault::UndefinedVariable));
                },
            };
            let v = eval(&**index_expr, frame, session, depth)?;
            let index = v.as_i64(session)?;
            item_at(&array, index)
        },
        Expression::FnInvoke(name, args) => {
            let arg_vals = eval_list(args, frame, session, depth)?;
            match frame.get_fn(name.as_slice()) {
                Some(func) => {
                    if depth == 0 {
                        Err(BreakResult::Fault(Fault::DepthExceeded))
                    } else {
                        func.call(&arg_vals, &*frame, session, depth - 1)
                    }
                },
                None => Err(BreakResult::Fault(Fault::UndefinedFunction)),
            }
        },
        Expression::Arith(op, lhs, rhs) => {
            let a = eval(&**lhs, frame, session, depth)?;
            let b = eval(&**rhs, frame, session, depth)?;
            binary_op_str(*op, &a, &b, session)
        },
        Expression::Compare(op, lhs, rhs) => {
            let a = eval(&**lhs, frame, session, depth)?;
            let b = eval(&**rhs, frame, session, depth)?;
            relation(*op, &a, &b, session)
        },
        Expression::If(cond, t_case, f_case) => {
            let c = eval(&**cond, frame, session, depth)?;
            if truthy(&c)? {
                eval_stmts(t_case, frame, session, depth)
            } else {
                match f_case {
                    Some(f_case) => eval_stmts(f_case, frame, session, depth),
                    None => Ok(Value::Integer(0)),
                }
            }
        },
    }
}

/// Evaluates the expressions of `items` one after the other, as `eval_list_spec` says.
pub fn eval_list<'a>(items: &'a Vec<Expression>, frame: &mut StackFrame<'a>, session: &mut Session<'_>, depth: usize) -> (r: Result<Vec<Value>, BreakResult>)
    ensures
        list_outcome(r, *final(frame), *final(session)) == eval_list_spec(
            view_expressions(*items),
            0,
            Seq::empty(),
            old(frame)@,
            old(session)@,
            depth as nat,
        ),
    decreases depth, view_expressions(*items), items@.len() + 1,
{
    let ghost views = view_expressions(*items);
    let mut values: Vec<Value> = Vec::new();
    let mut i: usize = 0;
    assert(view_values(values@) =~= Seq::empty());
    while i < items.len()
        invariant
            i <= items.len(),
            views == view_expressions(*items),
            eval_list_spec(views, 0, Seq::empty(), old(frame)@, old(session)@, depth as nat) == eval_list_spec(
                views,
                i as int,
                view_values(values@),
                frame@,
                session@,
                depth as nat,
            ),
        decreases items.len() - i,
    {
        let ghost before = view_values(values@);
        let v = eval(&items[i], frame, session, depth)?;
        values.push(v);
        assert(view_values(values@) =~= before.push(v@));
        i += 1;
    }
    Ok(values)
}

impl<'src> FnDef<'src> {
    /// Calls the function with `args` from `frame`, as `call_spec` says.
    pub fn call(&self, args: &Vec<Value>, frame: &StackFrame<'src>, session: &mut Session<'_>, depth: usize) -> (r: EvalResult)
        ensures
            (view_result(r), final(session)@) == call_spec(self@, view_values(args@), frame@, old(session)@, depth as nat),
        decreases depth, body_of(self@), body_of(self@).len() + 1,
    {
        match self {
            FnDef::User(code) => {
                let mut new_frame = StackFrame::push_stack(frame);
                let ghost names = view_names(code.args@);
                let ghost vals = view_values(args@);
                let mut i: usize = 0;
                while i < code.args.len() && i < args.len()
                    invariant
                        i <= code.args.len(),
                        i <= args.len(),
                        names == view_names(code.args@),
                        vals == view_values(args@),
                        bind_args(push_stack_spec(frame@), names, vals, 0) == bind_args(new_frame@, names, vals, i as int),
                    decreases code.args.len() - i,
                {
                    new_frame.vars.insert(code.args[i].clone(), args[i].copy());
                    i += 1;
                }
                match eval_stmts(code.stmts, &mut new_frame, session, depth) {
                    Ok(val) => Ok(val),
                    Err(BreakResult::Return(val)) => Ok(val),
                    Err(BreakResult::Break) => Err(BreakResult::Fault(Fault::IllegalControlFlow)),
                    Err(BreakResult::Continue) => Err(BreakResult::Fault(Fault::IllegalControlFlow)),
                    Err(other) => Err(other),
                }
            },
            FnDef::Native(code) => call_native(*code, args, session),
        }
    }
}

} // verus!
