//! The parsers of expressions.

use vstd::prelude::*;
use crate::ast::{ArithOp, CompareOp, Expression, Statement, StatementView, view_statements};
use crate::grammar::{after_op, block_spec, cond_expr_spec, cond_op_spec, else_spec, expr_spec, if_expr_spec, num_expr_spec, num_op_spec, num_rest_spec, Scan, spaced_expr_spec, term_op_spec, term_rest_spec, term_spec};
use crate::lex::{char_at, multispace0, token};
use crate::parse_base::{Parsed, scan_expression, scan_statements, within};
use crate::parse_factor::factor;
use crate::parse_stmt::statements;

verus! {

/// What a parsed second block of a conditional stands for.
pub open spec fn scan_else(r: Parsed<Option<Vec<Statement>>>) -> Scan<Option<Seq<StatementView>>> {
    match r {
        Parsed::Done(Some(stmts), p) => Scan::Done(Some(view_statements(stmts)), p as int),
        Parsed::Done(None, p) => Scan::Done(None, p as int),
        Parsed::Miss => Scan::Miss,
        Parsed::Fail(p) => Scan::Fail(p as int),
    }
}

/// Reads the operator of a product.
fn term_op(input: &[u8], pos: usize) -> (r: Option<(ArithOp, usize)>)
    requires
        pos <= input@.len(),
    ensures
        match r {
            Some((op, next)) => term_op_spec(input@, pos as int) == Some(op) && next == after_op(input@, pos as int) && pos < next <= input@.len(),
            None => term_op_spec(input@, pos as int) is None,
        },
{
    let at = multispace0(input, pos);
    if char_at(input, at, '*') {
        Some((ArithOp::Mul, multispace0(input, at + 1)))
    } else if char_at(input, at, '/') {
        Some((ArithOp::Div, multispace0(input, at + 1)))
    } else {
        None
    }
}

/// Reads the operator of a sum.
fn num_op(input: &[u8], pos: usize) -> (r: Option<(ArithOp, usize)>)
    requires
        pos <= input@.len(),
    ensures
        match r {
            Some((op, next)) => num_op_spec(input@, pos as int) == Some(op) && next == after_op(input@, pos as int) && pos < next <= input@.len(),
            None => num_op_spec(input@, pos as int) is None,
        },
{
    let at = multispace0(input, pos);
    if char_at(input, at, '+') {
        Some((ArithOp::Add, multispace0(input, at + 1)))
    } else if char_at(input, at, '-') {
        Some((ArithOp::Sub, multispace0(input, at + 1)))
    } else {
        None
    }
}

/// Reads the operator of a comparison.
fn cond_op(input: &[u8], pos: usize) -> (r: Option<(CompareOp, usize)>)
    requires
        pos <= input@.len(),
    ensures
        match r {
            Some((op, next)) => cond_op_spec(input@, pos as int) == Some(op) && next == after_op(input@, pos as int) && pos < next <= input@.len(),
            None => cond_op_spec(input@, pos as int) is None,
        },
{
    let at = multispace0(input, pos);
    if char_at(input, at, '<') {
        Some((CompareOp::Lt, multispace0(input, at + 1)))
    } else if char_at(input, at, '>') {
        Some((CompareOp::Gt, multispace0(input, at + 1)))
    } else {
        None
    }
}

/// Reads a product.
pub fn term(input: &[u8], pos: usize, depth: usize) -> (r: Parsed<Expression>)
    requires
        pos <= input@.len(),
    ensures
        scan_expression(r) == term_spec(input@, pos as int, depth as nat),
        within(r, pos, input@.len()),
    decreases depth, 13nat, 0nat,
{
    let (mut acc, mut at) = match factor(input, pos, depth) {
        Parsed::Done(init, p) => (init, p),
        Parsed::Miss => {
            return Parsed::Miss;
        },
        Parsed::Fail(p) => {
            return Parsed::Fail(p);
        },
    };
    loop
        invariant
            pos <= at <= input@.len(),
            term_spec(input@, pos as int, depth as nat) == term_rest_spec(input@, at as int, acc@, depth as nat),
        decreases input@.len() - at,
    {
        let (op, start) = match term_op(input, at) {
            Some(found) => found,
            None => {
                return Parsed::Done(acc, at);
            },
        };
        match factor(input, start, depth) {
            Parsed::Done(val, p) => {
                acc = Expression::Arith(op, Box::new(acc), Box::new(val));
                at = p;
            },
            Parsed::Miss => {
                return Parsed::Done(acc, at);
            },
            Parsed::Fail(p) => {
                return Parsed::Fail(p);
            },
        }
    }
}

/// Reads a sum.
pub fn num_expr(input: &[u8], pos: usize, depth: usize) -> (r: Parsed<Expression>)
    requires
        pos <= input@.len(),
    ensures
        scan_expression(r) == num_expr_spec(input@, pos as int, depth as nat),
        within(r, pos, input@.len()),
    decreases depth, 15nat, 0nat,
{
    let (mut acc, mut at) = match term(input, pos, depth) {
        Parsed::Done(init, p) => (init, p),
        Parsed::Miss => {
            return Parsed::Miss;
        },
        Parsed::Fail(p) => {
            return Parsed::Fail(p);
        },
    };
    loop
        invariant
            pos <= at <= input@.len(),
            num_expr_spec(input@, pos as int, depth as nat) == num_rest_spec(input@, at as int, acc@, depth as nat),
        decreases input@.len() - at,
    {
        let (op, start) = match num_op(input, at) {
            Some(found) => found,
            None => {
                return Parsed::Done(acc, at);
            },
        };
        match term(input, start, depth) {
            Parsed::Done(val, p) => {
                acc = Expression::Arith(op, Box::new(acc), Box::new(val));
                at = p;
            },
            Parsed::Miss => {
                return Parsed::Done(acc, at);
            },
            Parsed::Fail(p) => {
                return Parsed::Fail(p);
            },
        }
    }
}

/// Reads a comparison.
pub fn cond_expr(input: &[u8], pos: usize, depth: usize) -> (r: Parsed<Expression>)
    requires
        pos <= input@.len(),
    ensures
        scan_expression(r) == cond_expr_spec(input@, pos as int, depth as nat),
        within(r, pos, input@.len()),
    decreases depth, 16nat, 0nat,
{
    let (first, p) = match num_expr(input, pos, depth) {
        Parsed::Done(first, p) => (first, p),
        Parsed::Miss => {
            return Parsed::Miss;
        },
        Parsed::Fail(p) => {
            return Parsed::Fail(p);
        },
    };
    let (cond, start) = match cond_op(input, p) {
        Some(found) => found,
        None => {
            return Parsed::Miss;
        },
    };
    match num_expr(input, start, depth) {
        Parsed::Done(second, q) => Parsed::Done(Expression::Compare(cond, Box::new(first), Box::new(second)), q),
        Parsed::Miss => Parsed::Miss,
        Parsed::Fail(q) => Parsed::Fail(q),
    }
}

/// Reads a block.
pub fn block(input: &[u8], pos: usize, depth: usize) -> (r: Parsed<Vec<Statement>>)
    requires
        pos <= input@.len(),
    ensures
        scan_statements(r) == block_spec(input@, pos as int, depth as nat),
        within(r, pos, input@.len()),
    decreases depth, 32nat, 0nat,
{
    let open = match token(input, pos, "{") {
        Some(p) => p,
        None => {
            return Parsed::Miss;
        },
    };
    match statements(input, open, depth) {
        Parsed::Done(stmts, p) => match token(input, p, "}") {
            Some(close) => Parsed::Done(stmts, close),
            None => Parsed::Miss,
        },
        Parsed::Miss => Parsed::Miss,
        Parsed::Fail(p) => Parsed::Fail(p),
    }
}

/// The list that holds one expression as its only statement.
fn only(e: Expression) -> (r: Vec<Statement>)
    ensures
        view_statements(r) == seq![StatementView::Expression(e@)],
{
    let mut stmts: Vec<Statement> = Vec::new();
    stmts.push(Statement::Expression(e));
    assert(view_statements(stmts) =~= seq![StatementView::Expression(e@)]);
    stmts
}

/// Reads what follows the first block of a conditional.
pub fn else_case(input: &[u8], pos: usize, depth: usize) -> (r: Parsed<Option<Vec<Statement>>>)
    requires
        pos <= input@.len(),
    ensures
        scan_else(r) == else_spec(input@, pos as int, depth as nat),
        within(r, pos, input@.len()),
    decreases depth, 33nat, 0nat,
{
    let p = match token(input, pos, "else") {
        Some(p) => p,
        None => {
            return Parsed::Done(None, pos);
        },
    };
    match block(input, p, depth) {
        Parsed::Done(stmts, q) => {
            return Parsed::Done(Some(stmts), q);
        },
        Parsed::Fail(q) => {
            return Parsed::Fail(q);
        },
        Parsed::Miss => {},
    }
    match if_expr(input, p, depth) {
        Parsed::Done(v, q) => Parsed::Done(Some(only(v)), q),
        Parsed::Fail(q) => Parsed::Fail(q),
        Parsed::Miss => Parsed::Done(None, pos),
    }
}

/// Reads a conditional.
pub fn if_expr(input: &[u8], pos: usize, depth: usize) -> (r: Parsed<Expression>)
    requires
        pos <= input@.len(),
    ensures
        scan_expression(r) == if_expr_spec(input@, pos as int, depth as nat),
        within(r, pos, input@.len()),
    decreases depth, 18nat, 0nat,
{
    let p = match token(input, pos, "if") {
        Some(p) => p,
        None => {
            return Parsed::Miss;
        },
    };
    if depth == 0 {
        return Parsed::Miss;
    }
    let (cond, q) = match expr(input, p, depth - 1) {
        Parsed::Done(cond, q) => (cond, q),
        Parsed::Miss => {
            return Parsed::Miss;
        },
        Parsed::Fail(q) => {
            return Parsed::Fail(q);
        },
    };
    let (t_case, r) = match block(input, q, depth - 1) {
        Parsed::Done(t_case, r) => (t_case, r),
        Parsed::Miss => {
            return Parsed::Miss;
        },
        Parsed::Fail(r) => {
            return Parsed::Fail(r);
        },
    };
    match else_case(input, r, depth - 1) {
        Parsed::Done(f_case, end) => Parsed::Done(Expression::If(Box::new(cond), t_case, f_case), end),
        Parsed::Miss => Parsed::Miss,
        Parsed::Fail(end) => Parsed::Fail(end),
    }
}

/// Reads an expression.
pub fn expr(input: &[u8], pos: usize, depth: usize) -> (r: Parsed<Expression>)
    requires
        pos <= input@.len(),
    ensures
        scan_expression(r) == expr_spec(input@, pos as int, depth as nat),
        within(r, pos, input@.len()),
    decreases depth, 20nat, 0nat,
{
    match if_expr(input, pos, depth) {
        Parsed::Miss => {},
        found => {
            return found;
        },
    }
    match cond_expr(input, pos, depth) {
        Parsed::Miss => {},
        found => {
            return found;
        },
    }
    num_expr(input, pos, depth)
}

/// Reads an expression with white space around it.
pub fn spaced_expr(input: &[u8], pos: usize, depth: usize) -> (r: Parsed<Expression>)
    requires
        pos <= input@.len(),
    ensures
        scan_expression(r) == spaced_expr_spec(input@, pos as int, depth as nat),
        within(r, pos, input@.len()),
    decreases depth, 21nat, 0nat,
{
    let start = multispace0(input, pos);
    match expr(input, start, depth) {
        Parsed::Done(e, p) => Parsed::Done(e, multispace0(input, p)),
        Parsed::Miss => Parsed::Miss,
        Parsed::Fail(p) => Parsed::Fail(p),
    }
}

} // verus!
