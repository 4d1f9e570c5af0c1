//! The parsers of statements and of whole programs.

use vstd::prelude::*;
use vstd::string::*;
use crate::ast::{Expression, ExpressionView, Statement, StatementView, view_names, view_statements};
use crate::grammar::{binding_spec, break_statement_spec, continue_statement_spec, expr_statement_spec, fn_def_statement_spec, fn_head_spec, for_head_spec, for_statement_spec, general_statement_spec, let_assign_spec, let_def_spec, NESTING_LIMIT, params_rest_spec, params_spec, return_statement_spec, Scan, simple_statement_spec, statements_finish_spec, statements_rest_spec, statements_spec, step_clause_spec, terminated_spec};
use crate::lex::{char_at, multispace0, tag, token};
use crate::parse_base::{name, no_names, no_statements, Parsed, push_name, push_statement, scan_statement, scan_statements, within};
use crate::parse_expr::{block, expr, spaced_expr};

verus! {

/// Where a program's text is at fault.
#[derive(Clone, Copy, PartialEq, Eq, Debug, Structural)]
pub struct SyntaxFault {
    /// The position of the first byte that no statement takes up, or of what breaks the
    /// input.
    pub position: usize,
}

/// What a parsed step of a loop stands for.
pub open spec fn scan_step(r: Parsed<Option<Expression>>) -> Scan<Option<ExpressionView>> {
    match r {
        Parsed::Done(Some(e), p) => Scan::Done(Some(e@), p as int),
        Parsed::Done(None, p) => Scan::Done(None, p as int),
        Parsed::Miss => Scan::Miss,
        Parsed::Fail(p) => Scan::Fail(p as int),
    }
}

/// What a parsed binding stands for.
pub open spec fn scan_binding(r: Parsed<(Vec<u8>, Expression)>) -> Scan<(Seq<u8>, ExpressionView)> {
    match r {
        Parsed::Done((name, e), p) => Scan::Done((name@, e@), p as int),
        Parsed::Miss => Scan::Miss,
        Parsed::Fail(p) => Scan::Fail(p as int),
    }
}

/// What a parsed program stands for.
pub open spec fn view_program(r: Result<Vec<Statement>, SyntaxFault>) -> Result<Seq<StatementView>, int> {
    match r {
        Ok(stmts) => Ok(view_statements(stmts)),
        Err(fault) => Err(fault.position as int),
    }
}

/// Reads a name, `=` and an expression.
pub fn binding(input: &[u8], pos: usize, depth: usize) -> (r: Parsed<(Vec<u8>, Expression)>)
    requires
        pos <= input@.len(),
    ensures
        scan_binding(r) == binding_spec(input@, pos as int, depth as nat),
        within(r, pos, input@.len()),
    decreases depth, 25nat, 0nat,
{
    let (name, p) = match name(input, pos) {
        Some(found) => found,
        None => {
            return Parsed::Miss;
        },
    };
    let q = match token(input, p, "=") {
        Some(q) => q,
        None => {
            return Parsed::Miss;
        },
    };
    match spaced_expr(input, q, depth) {
        Parsed::Done(e, end) => Parsed::Done((name, e), end),
        Parsed::Miss => Parsed::Miss,
        Parsed::Fail(end) => Parsed::Fail(end),
    }
}

/// Reads a declaration.
pub fn let_def(input: &[u8], pos: usize, depth: usize) -> (r: Parsed<Statement>)
    requires
        pos <= input@.len(),
    ensures
        scan_statement(r) == let_def_spec(input@, pos as int, depth as nat),
        within(r, pos, input@.len()),
    decreases depth, 26nat, 0nat,
{
    let start = multispace0(input, pos);
    let p = match tag(input, start, "let") {
        Some(p) => p,
        None => {
            return Parsed::Miss;
        },
    };
    let q = multispace0(input, p);
    if q <= p {
        return Parsed::Miss;
    }
    match binding(input, q, depth) {
        Parsed::Done((name, e), end) => Parsed::Done(Statement::LetDef(name, e), end),
        Parsed::Miss => Parsed::Miss,
        Parsed::Fail(end) => Parsed::Fail(end),
    }
}

/// Reads an assignment.
pub fn let_assign(input: &[u8], pos: usize, depth: usize) -> (r: Parsed<Statement>)
    requires
        pos <= input@.len(),
    ensures
        scan_statement(r) == let_assign_spec(input@, pos as int, depth as nat),
        within(r, pos, input@.len()),
    decreases depth, 26nat, 0nat,
{
    match binding(input, pos, depth) {
        Parsed::Done((name, e), end) => Parsed::Done(Statement::LetAssign(name, e), end),
        Parsed::Miss => Parsed::Miss,
        Parsed::Fail(end) => Parsed::Fail(end),
    }
}

/// Reads an expression as a statement.
pub fn expr_statement(input: &[u8], pos: usize, depth: usize) -> (r: Parsed<Statement>)
    requires
        pos <= input@.len(),
    ensures
        scan_statement(r) == expr_statement_spec(input@, pos as int, depth as nat),
        within(r, pos, input@.len()),
    decreases depth, 26nat, 0nat,
{
    match expr(input, pos, depth) {
        Parsed::Done(res, end) => Parsed::Done(Statement::Expression(res), end),
        Parsed::Miss => Parsed::Miss,
        Parsed::Fail(end) => Parsed::Fail(end),
    }
}

/// Reads the step of a loop.
pub fn step_clause(input: &[u8], pos: usize, depth: usize) -> (r: Parsed<Option<Expression>>)
    requires
        pos <= input@.len(),
    ensures
        scan_step(r) == step_clause_spec(input@, pos as int, depth as nat),
        within(r, pos, input@.len()),
    decreases depth, 25nat, 0nat,
{
    let p = match token(input, pos, "step") {
        Some(p) => p,
        None => {
            return Parsed::Done(None, pos);
        },
    };
    match spaced_expr(input, p, depth) {
        Parsed::Done(e, end) => Parsed::Done(Some(e), end),
        Parsed::Miss => Parsed::Done(None, pos),
        Parsed::Fail(end) => Parsed::Fail(end),
    }
}

/// Reads the head of a loop up to its variable.
fn for_head(input: &[u8], pos: usize) -> (r: Option<(Vec<u8>, usize)>)
    requires
        pos <= input@.len(),
    ensures
        crate::parse_base::scan_name(r) == for_head_spec(input@, pos as int),
        r matches Some((_, p)) ==> pos <= p <= input@.len(),
{
    let p = match token(input, pos, "for") {
        Some(p) => p,
        None => {
            return None;
        },
    };
    let (loop_var, q) = match name(input, p) {
        Some(found) => found,
        None => {
            return None;
        },
    };
    match token(input, q, "in") {
        Some(r) => Some((loop_var, r)),
        None => None,
    }
}

/// Reads a loop.
pub fn for_statement(input: &[u8], pos: usize, depth: usize) -> (r: Parsed<Statement>)
    requires
        pos <= input@.len(),
    ensures
        scan_statement(r) == for_statement_spec(input@, pos as int, depth as nat),
        within(r, pos, input@.len()),
    decreases depth, 26nat, 0nat,
{
    let (loop_var, p) = match for_head(input, pos) {
        Some(found) => found,
        None => {
            return Parsed::Miss;
        },
    };
    let (start, q) = match spaced_expr(input, p, depth) {
        Parsed::Done(start, q) => (start, q),
        Parsed::Miss => {
            return Parsed::Miss;
        },
        Parsed::Fail(q) => {
            return Parsed::Fail(q);
        },
    };
    let r = match token(input, q, "to") {
        Some(r) => r,
        None => {
            return Parsed::Miss;
        },
    };
    let (end, s) = match spaced_expr(input, r, depth) {
        Parsed::Done(end, s) => (end, s),
        Parsed::Miss => {
            return Parsed::Miss;
        },
        Parsed::Fail(s) => {
            return Parsed::Fail(s);
        },
    };
    let (step, t) = match step_clause(input, s, depth) {
        Parsed::Done(step, t) => (step, t),
        Parsed::Miss => {
            return Parsed::Miss;
        },
        Parsed::Fail(t) => {
            return Parsed::Fail(t);
        },
    };
    if depth == 0 {
        return Parsed::Miss;
    }
    match block(input, t, depth - 1) {
        Parsed::Done(stmts, u) => Parsed::Done(Statement::For { loop_var, start, end, step, stmts }, u),
        Parsed::Miss => Parsed::Miss,
        Parsed::Fail(u) => Parsed::Fail(u),
    }
}

/// Reads the parameters of a declared function.
fn params(input: &[u8], pos: usize) -> (r: (Vec<Vec<u8>>, usize))
    requires
        pos <= input@.len(),
    ensures
        (view_names(r.0@), r.1 as int) == params_spec(input@, pos as int),
        pos <= r.1 <= input@.len(),
{
    let mut args = no_names();
    let mut at: usize = pos;
    match name(input, pos) {
        Some((first, p)) => {
            push_name(&mut args, first);
            assert(view_names(args@) =~= seq![first@]);
            at = p;
        },
        None => {
            return (args, pos);
        },
    }
    loop
        invariant
            pos <= at <= input@.len(),
            params_spec(input@, pos as int) == params_rest_spec(input@, at as int, view_names(args@)),
        decreases input@.len() - at,
    {
        if !char_at(input, at, ',') {
            return (args, at);
        }
        match name(input, at + 1) {
            Some((next, p)) => {
                push_name(&mut args, next);
                at = p;
            },
            None => {
                return (args, at);
            },
        }
    }
}

/// What a parsed head of a function's declaration stands for.
pub open spec fn scan_head(r: Option<(Vec<u8>, Vec<Vec<u8>>, usize)>) -> Option<(Seq<u8>, Seq<Seq<u8>>, int)> {
    match r {
        Some((name, args, p)) => Some((name@, view_names(args@), p as int)),
        None => None,
    }
}

/// Reads the head of a function's declaration.
fn fn_head(input: &[u8], pos: usize) -> (r: Option<(Vec<u8>, Vec<Vec<u8>>, usize)>)
    requires
        pos <= input@.len(),
    ensures
        scan_head(r) == fn_head_spec(input@, pos as int),
        r matches Some((_, _, p)) ==> pos <= p <= input@.len(),
{
    let p = match token(input, pos, "func") {
        Some(p) => p,
        None => {
            return None;
        },
    };
    let (name, q) = match name(input, p) {
        Some(found) => found,
        None => {
            return None;
        },
    };
    let r = match token(input, q, "(") {
        Some(r) => r,
        None => {
            return None;
        },
    };
    let (args, s) = params(input, r);
    match token(input, s, ")") {
        Some(t) => Some((name, args, t)),
        None => None,
    }
}

/// Reads the declaration of a function.
pub fn fn_def_statement(input: &[u8], pos: usize, depth: usize) -> (r: Parsed<Statement>)
    requires
        pos <= input@.len(),
    ensures
        scan_statement(r) == fn_def_statement_spec(input@, pos as int, depth as nat),
        within(r, pos, input@.len()),
    decreases depth, 26nat, 0nat,
{
    let (name, args, p) = match fn_head(input, pos) {
        Some(found) => found,
        None => {
            return Parsed::Miss;
        },
    };
    if depth == 0 {
        return Parsed::Miss;
    }
    match block(input, p, depth - 1) {
        Parsed::Done(stmts, end) => Parsed::Done(Statement::FnDef { name, args, stmts }, end),
        Parsed::Miss => Parsed::Miss,
        Parsed::Fail(end) => Parsed::Fail(end),
    }
}

/// Reads a `return`.
pub fn return_statement(input: &[u8], pos: usize, depth: usize) -> (r: Parsed<Statement>)
    requires
        pos <= input@.len(),
    ensures
        scan_statement(r) == return_statement_spec(input@, pos as int, depth as nat),
        within(r, pos, input@.len()),
    decreases depth, 26nat, 0nat,
{
    let p = match token(input, pos, "return") {
        Some(p) => p,
        None => {
            return Parsed::Miss;
        },
    };
    match spaced_expr(input, p, depth) {
        Parsed::Done(ex, end) => Parsed::Done(Statement::Return(ex), end),
        Parsed::Miss => Parsed::Miss,
        Parsed::Fail(end) => Parsed::Fail(end),
    }
}

/// Reads a `break`.
pub fn break_statement(input: &[u8], pos: usize) -> (r: Parsed<Statement>)
    requires
        pos <= input@.len(),
    ensures
        scan_statement(r) == break_statement_spec(input@, pos as int),
        within(r, pos, input@.len()),
{
    match token(input, pos, "break") {
        Some(p) => Parsed::Done(Statement::Break, p),
        None => Parsed::Miss,
    }
}

/// Reads a `continue`.
pub fn continue_statement(input: &[u8], pos: usize) -> (r: Parsed<Statement>)
    requires
        pos <= input@.len(),
    ensures
        scan_statement(r) == continue_statement_spec(input@, pos as int),
        within(r, pos, input@.len()),
{
    match token(input, pos, "continue") {
        Some(p) => Parsed::Done(Statement::Continue, p),
        None => Parsed::Miss,
    }
}

/// Holds a statement to its end.
pub fn terminated(s: Parsed<Statement>, input: &[u8], last: bool) -> (r: Parsed<Statement>)
    requires
        s matches Parsed::Done(_, p) ==> p <= input@.len(),
    ensures
        scan_statement(r) == terminated_spec(scan_statement(s), input@, last),
        r matches Parsed::Done(_, q) ==> s matches Parsed::Done(_, p) && p <= q <= input@.len(),
{
    match s {
        Parsed::Done(stmt, p) => {
            if char_at(input, p, ';') {
                Parsed::Done(stmt, multispace0(input, p + 1))
            } else if last {
                Parsed::Done(stmt, p)
            } else {
                Parsed::Miss
            }
        },
        other => other,
    }
}

/// Reads a simple statement.
pub fn simple_statement(input: &[u8], pos: usize, last: bool, depth: usize) -> (r: Parsed<Statement>)
    requires
        pos <= input@.len(),
    ensures
        scan_statement(r) == simple_statement_spec(input@, pos as int, last, depth as nat),
        within(r, pos, input@.len()),
    decreases depth, 27nat, 0nat,
{
    match terminated(return_statement(input, pos, depth), input, last) {
        Parsed::Miss => {},
        found => {
            return found;
        },
    }
    match terminated(break_statement(input, pos), input, last) {
        Parsed::Miss => {},
        found => {
            return found;
        },
    }
    match terminated(continue_statement(input, pos), input, last) {
        Parsed::Miss => {},
        found => {
            return found;
        },
    }
    terminated(expr_statement(input, pos, depth), input, last)
}

/// Reads a statement.
pub fn general_statement(input: &[u8], pos: usize, last: bool, depth: usize) -> (r: Parsed<Statement>)
    requires
        pos <= input@.len(),
    ensures
        scan_statement(r) == general_statement_spec(input@, pos as int, last, depth as nat),
        within(r, pos, input@.len()),
    decreases depth, 28nat, 0nat,
{
    match terminated(let_def(input, pos, depth), input, last) {
        Parsed::Miss => {},
        found => {
            return found;
        },
    }
    match terminated(let_assign(input, pos, depth), input, last) {
        Parsed::Miss => {},
        found => {
            return found;
        },
    }
    match fn_def_statement(input, pos, depth) {
        Parsed::Miss => {},
        found => {
            return found;
        },
    }
    match for_statement(input, pos, depth) {
        Parsed::Miss => {},
        found => {
            return found;
        },
    }
    simple_statement(input, pos, last, depth)
}

/// Reads a statement that may go without its end.
pub fn last_statement(input: &[u8], pos: usize, depth: usize) -> (r: Parsed<Statement>)
    requires
        pos <= input@.len(),
    ensures
        scan_statement(r) == general_statement_spec(input@, pos as int, true, depth as nat),
        within(r, pos, input@.len()),
    decreases depth, 29nat, 0nat,
{
    general_statement(input, pos, true, depth)
}

/// Reads a statement that has its end.
pub fn statement(input: &[u8], pos: usize, depth: usize) -> (r: Parsed<Statement>)
    requires
        pos <= input@.len(),
    ensures
        scan_statement(r) == general_statement_spec(input@, pos as int, false, depth as nat),
        within(r, pos, input@.len()),
    decreases depth, 29nat, 0nat,
{
    general_statement(input, pos, false, depth)
}

/// Reads a list of statements.
pub fn statements(input: &[u8], pos: usize, depth: usize) -> (r: Parsed<Vec<Statement>>)
    requires
        pos <= input@.len(),
    ensures
        scan_statements(r) == statements_spec(input@, pos as int, depth as nat),
        within(r, pos, input@.len()),
    decreases depth, 31nat, 0nat,
{
    let mut stmts = no_statements();
    let mut at: usize = pos;
    loop
        invariant
            pos <= at <= input@.len(),
            statements_spec(input@, pos as int, depth as nat) == statements_rest_spec(input@, at as int, view_statements(stmts), depth as nat),
        decreases input@.len() - at,
    {
        match statement(input, at, depth) {
            Parsed::Done(s, p) => {
                if p <= at {
                    return Parsed::Miss;
                }
                push_statement(&mut stmts, s);
                at = p;
            },
            Parsed::Fail(p) => {
                return Parsed::Fail(p);
            },
            Parsed::Miss => {
                match last_statement(input, at, depth) {
                    Parsed::Done(last, p) => {
                        push_statement(&mut stmts, last);
                        return Parsed::Done(stmts, multispace0(input, p));
                    },
                    Parsed::Fail(p) => {
                        return Parsed::Fail(p);
                    },
                    Parsed::Miss => {
                        return Parsed::Done(stmts, multispace0(input, at));
                    },
                }
            },
        }
    }
}

/// Reads a program from its text.
pub fn statements_finish(i: &str) -> (r: Result<Vec<Statement>, SyntaxFault>)
    ensures
        view_program(r) == statements_finish_spec(i.spec_bytes()),
{
    parse(i.as_bytes())
}

/// Reads a program from the bytes of its text.
pub fn parse(input: &[u8]) -> (r: Result<Vec<Statement>, SyntaxFault>)
    ensures
        view_program(r) == statements_finish_spec(input@),
{
    match statements(input, 0, NESTING_LIMIT) {
        Parsed::Done(stmts, p) => {
            if p == input.len() {
                Ok(stmts)
            } else {
                Err(SyntaxFault { position: p })
            }
        },
        Parsed::Miss => Err(SyntaxFault { position: 0 }),
        Parsed::Fail(p) => Err(SyntaxFault { position: p }),
    }
}

} // verus!
