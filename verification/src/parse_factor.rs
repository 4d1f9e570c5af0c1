//! The parsers of factors: what stands on either side of an operator.

use vstd::prelude::*;
use crate::ast::{Expression, view_expressions};
use crate::grammar::{args_spec, array_index_spec, array_literal_spec, factor_spec, func_call_spec, items_rest_spec, items_spec, parens_spec};
use crate::lex::{char_at, identifier, multispace0};
use crate::parse_base::{ident, name, no_expressions, num_literal, Parsed, push_expression, scan_expression, scan_expressions, str_literal, within};
use crate::parse_expr::expr;
use crate::text::copy_range;

verus! {

/// Reads an indexed array.
pub fn array_index(input: &[u8], pos: usize, depth: usize) -> (r: Parsed<Expression>)
    requires
        pos <= input@.len(),
    ensures
        scan_expression(r) == array_index_spec(input@, pos as int, depth as nat),
        within(r, pos, input@.len()),
    decreases depth, 8nat, 0nat,
{
    let start = multispace0(input, pos);
    let end = match identifier(input, start) {
        Some(end) => end,
        None => {
            return Parsed::Miss;
        },
    };
    if !char_at(input, end, '[') || depth == 0 {
        return Parsed::Miss;
    }
    let inner = multispace0(input, end + 1);
    match expr(input, inner, depth - 1) {
        Parsed::Done(i, p) => {
            let close = multispace0(input, p);
            if char_at(input, close, ']') {
                Parsed::Done(
                    Expression::ArrayIndex(copy_range(input, start, end), Box::new(i)),
                    multispace0(input, close + 1),
                )
            } else {
                Parsed::Miss
            }
        },
        Parsed::Miss => Parsed::Miss,
        Parsed::Fail(p) => Parsed::Fail(p),
    }
}

/// Reads the items of an array literal.
pub fn items(input: &[u8], pos: usize, depth: usize) -> (r: Parsed<Vec<Expression>>)
    requires
        pos <= input@.len(),
    ensures
        scan_expressions(r) == items_spec(input@, pos as int, depth as nat),
        within(r, pos, input@.len()),
    decreases depth, 23nat, 0nat,
{
    let mut elems = no_expressions();
    let mut at: usize = pos;
    match expr(input, pos, depth) {
        Parsed::Done(item, p) => {
            push_expression(&mut elems, item);
            assert(view_expressions(elems) =~= seq![item@]);
            at = p;
        },
        Parsed::Miss => {
            return Parsed::Done(elems, pos);
        },
        Parsed::Fail(p) => {
            return Parsed::Fail(p);
        },
    }
    loop
        invariant
            pos <= at <= input@.len(),
            items_spec(input@, pos as int, depth as nat) == items_rest_spec(input@, at as int, view_expressions(elems), depth as nat),
        decreases input@.len() - at,
    {
        let comma = multispace0(input, at);
        if !char_at(input, comma, ',') {
            return Parsed::Done(elems, at);
        }
        let start = multispace0(input, comma + 1);
        match expr(input, start, depth) {
            Parsed::Done(item, p) => {
                push_expression(&mut elems, item);
                at = p;
            },
            Parsed::Miss => {
                return Parsed::Done(elems, at);
            },
            Parsed::Fail(p) => {
                return Parsed::Fail(p);
            },
        }
    }
}

/// Reads an array literal.
pub fn array_literal(input: &[u8], pos: usize, depth: usize) -> (r: Parsed<Expression>)
    requires
        pos <= input@.len(),
    ensures
        scan_expression(r) == array_literal_spec(input@, pos as int, depth as nat),
        within(r, pos, input@.len()),
    decreases depth, 8nat, 0nat,
{
    if !char_at(input, pos, '[') || depth == 0 {
        return Parsed::Miss;
    }
    match items(input, pos + 1, depth - 1) {
        Parsed::Done(elems, p) => {
            if char_at(input, p, ']') {
                Parsed::Done(Expression::ArrayLiteral(elems), p + 1)
            } else {
                Parsed::Miss
            }
        },
        Parsed::Miss => Parsed::Miss,
        Parsed::Fail(p) => Parsed::Fail(p),
    }
}

/// Reads the arguments of a call.
pub fn args(input: &[u8], pos: usize, depth: usize) -> (r: Parsed<Vec<Expression>>)
    requires
        pos <= input@.len(),
    ensures
        scan_expressions(r) == args_spec(input@, pos as int, Seq::empty(), depth as nat),
        within(r, pos, input@.len()),
    decreases depth, 22nat, 1nat,
{
    let mut values = no_expressions();
    let mut at: usize = pos;
    loop
        invariant
            pos <= at <= input@.len(),
            args_spec(input@, pos as int, Seq::empty(), depth as nat) == args_spec(input@, at as int, view_expressions(values), depth as nat),
        decreases input@.len() - at,
    {
        let start = multispace0(input, at);
        match expr(input, start, depth) {
            Parsed::Done(arg, p) => {
                let comma = multispace0(input, p);
                let next = if char_at(input, comma, ',') {
                    multispace0(input, comma + 1)
                } else {
                    comma
                };
                if next <= at {
                    return Parsed::Miss;
                }
                push_expression(&mut values, arg);
                at = next;
            },
            Parsed::Miss => {
                return Parsed::Done(values, at);
            },
            Parsed::Fail(p) => {
                return Parsed::Fail(p);
            },
        }
    }
}

/// Reads a call.
pub fn func_call(input: &[u8], pos: usize, depth: usize) -> (r: Parsed<Expression>)
    requires
        pos <= input@.len(),
    ensures
        scan_expression(r) == func_call_spec(input@, pos as int, depth as nat),
        within(r, pos, input@.len()),
    decreases depth, 8nat, 0nat,
{
    let (ident, open) = match name(input, pos) {
        Some(found) => found,
        None => {
            return Parsed::Miss;
        },
    };
    if !char_at(input, open, '(') || depth == 0 {
        return Parsed::Miss;
    }
    match args(input, open + 1, depth - 1) {
        Parsed::Done(values, p) => {
            if char_at(input, p, ')') {
                Parsed::Done(Expression::FnInvoke(ident, values), multispace0(input, p + 1))
            } else {
                Parsed::Miss
            }
        },
        Parsed::Miss => Parsed::Miss,
        Parsed::Fail(p) => Parsed::Fail(p),
    }
}

/// Reads an expression in round brackets.
pub fn parens(input: &[u8], pos: usize, depth: usize) -> (r: Parsed<Expression>)
    requires
        pos <= input@.len(),
    ensures
        scan_expression(r) == parens_spec(input@, pos as int, depth as nat),
        within(r, pos, input@.len()),
    decreases depth, 8nat, 0nat,
{
    let open = multispace0(input, pos);
    if !char_at(input, open, '(') || depth == 0 {
        return Parsed::Miss;
    }
    match expr(input, open + 1, depth - 1) {
        Parsed::Done(e, p) => {
            if char_at(input, p, ')') {
                Parsed::Done(e, multispace0(input, p + 1))
            } else {
                Parsed::Miss
            }
        },
        Parsed::Miss => Parsed::Miss,
        Parsed::Fail(p) => Parsed::Fail(p),
    }
}

/// Reads a factor.
pub fn factor(input: &[u8], pos: usize, depth: usize) -> (r: Parsed<Expression>)
    requires
        pos <= input@.len(),
    ensures
        scan_expression(r) == factor_spec(input@, pos as int, depth as nat),
        within(r, pos, input@.len()),
    decreases depth, 10nat, 0nat,
{
    match array_index(input, pos, depth) {
        Parsed::Miss => {},
        found => {
            return found;
        },
    }
    match array_literal(input, pos, depth) {
        Parsed::Miss => {},
        found => {
            return found;
        },
    }
    match str_literal(input, pos) {
        Parsed::Miss => {},
        found => {
            return found;
        },
    }
    match num_literal(input, pos) {
        Parsed::Miss => {},
        found => {
            return found;
        },
    }
    match func_call(input, pos, depth) {
        Parsed::Miss => {},
        found => {
            return found;
        },
    }
    match ident(input, pos) {
        Parsed::Miss => {},
        found => {
            return found;
        },
    }
    parens(input, pos, depth)
}

} // verus!
