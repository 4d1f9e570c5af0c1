//! What a parser returns, and the parsers of names and literals.

use vstd::prelude::*;
use crate::ast::{view_expressions, view_names, view_statements, Expression, ExpressionView, Statement, StatementView};
use crate::grammar::{ident_spec, name_spec, num_literal_of, num_literal_spec, str_literal_spec, Scan};
use crate::lex::{char_at, find_quote, float_at, identifier, multispace0, unescape, Lexeme};
use crate::text::copy_range;

verus! {

/// What a parser makes of the input at a position.
#[derive(Debug, PartialEq)]
pub enum Parsed<T> {
    /// It matched: what it read, and the position after it.
    Done(T, usize),
    /// It does not match here; another parser may.
    Miss,
    /// The input is broken at a position, and no parser will match.
    Fail(usize),
}

/// Whether what was read ends between `pos` and `len`.
pub open spec fn within<T>(r: Parsed<T>, pos: usize, len: nat) -> bool {
    r matches Parsed::Done(_, p) ==> pos <= p <= len
}

/// What a parsed expression stands for.
pub open spec fn scan_expression(r: Parsed<Expression>) -> Scan<ExpressionView> {
    match r {
        Parsed::Done(e, p) => Scan::Done(e@, p as int),
        Parsed::Miss => Scan::Miss,
        Parsed::Fail(p) => Scan::Fail(p as int),
    }
}

/// What parsed expressions stand for.
pub open spec fn scan_expressions(r: Parsed<Vec<Expression>>) -> Scan<Seq<ExpressionView>> {
    match r {
        Parsed::Done(items, p) => Scan::Done(view_expressions(items), p as int),
        Parsed::Miss => Scan::Miss,
        Parsed::Fail(p) => Scan::Fail(p as int),
    }
}

/// What a parsed statement stands for.
pub open spec fn scan_statement(r: Parsed<Statement>) -> Scan<StatementView> {
    match r {
        Parsed::Done(s, p) => Scan::Done(s@, p as int),
        Parsed::Miss => Scan::Miss,
        Parsed::Fail(p) => Scan::Fail(p as int),
    }
}

/// What parsed statements stand for.
pub open spec fn scan_statements(r: Parsed<Vec<Statement>>) -> Scan<Seq<StatementView>> {
    match r {
        Parsed::Done(stmts, p) => Scan::Done(view_statements(stmts), p as int),
        Parsed::Miss => Scan::Miss,
        Parsed::Fail(p) => Scan::Fail(p as int),
    }
}

/// What a parsed name stands for, with the position after it.
pub open spec fn scan_name(r: Option<(Vec<u8>, usize)>) -> Option<(Seq<u8>, int)> {
    match r {
        Some((name, p)) => Some((name@, p as int)),
        None => None,
    }
}

/// Adds an expression at the end of a list.
pub fn push_expression(items: &mut Vec<Expression>, e: Expression)
    ensures
        view_expressions(*final(items)) == view_expressions(*old(items)).push(e@),
{
    items.push(e);
    assert(view_expressions(*items) =~= view_expressions(*old(items)).push(e@));
}

/// Adds a statement at the end of a list.
pub fn push_statement(stmts: &mut Vec<Statement>, s: Statement)
    ensures
        view_statements(*final(stmts)) == view_statements(*old(stmts)).push(s@),
{
    stmts.push(s);
    assert(view_statements(*stmts) =~= view_statements(*old(stmts)).push(s@));
}

/// Adds a name at the end of a list.
pub fn push_name(names: &mut Vec<Vec<u8>>, name: Vec<u8>)
    ensures
        view_names(final(names)@) == view_names(old(names)@).push(name@),
{
    names.push(name);
    assert(view_names(names@) =~= view_names(old(names)@).push(name@));
}

/// The list that holds no expression.
pub fn no_expressions() -> (r: Vec<Expression>)
    ensures
        view_expressions(r) == Seq::<ExpressionView>::empty(),
{
    let r: Vec<Expression> = Vec::new();
    assert(view_expressions(r) =~= Seq::<ExpressionView>::empty());
    r
}

/// The list that holds no statement.
pub fn no_statements() -> (r: Vec<Statement>)
    ensures
        view_statements(r) == Seq::<StatementView>::empty(),
{
    let r: Vec<Statement> = Vec::new();
    assert(view_statements(r) =~= Seq::<StatementView>::empty());
    r
}

/// The list that holds no name.
pub fn no_names() -> (r: Vec<Vec<u8>>)
    ensures
        view_names(r@) == Seq::<Seq<u8>>::empty(),
{
    let r: Vec<Vec<u8>> = Vec::new();
    assert(view_names(r@) =~= Seq::<Seq<u8>>::empty());
    r
}

/// Reads a name with white space around it.
pub fn name(input: &[u8], pos: usize) -> (r: Option<(Vec<u8>, usize)>)
    requires
        pos <= input@.len(),
    ensures
        scan_name(r) == name_spec(input@, pos as int),
        r matches Some((_, p)) ==> pos < p <= input@.len(),
{
    let start = multispace0(input, pos);
    match identifier(input, start) {
        Some(end) => Some((copy_range(input, start, end), multispace0(input, end))),
        None => None,
    }
}

/// Reads a text literal.
pub fn str_literal(input: &[u8], pos: usize) -> (r: Parsed<Expression>)
    requires
        pos <= input@.len(),
    ensures
        scan_expression(r) == str_literal_spec(input@, pos as int),
        within(r, pos, input@.len()),
{
    let start = multispace0(input, pos);
    if !char_at(input, start, '"') {
        return Parsed::Miss;
    }
    let end = find_quote(input, start + 1);
    if !char_at(input, end, '"') {
        return Parsed::Miss;
    }
    let body = copy_range(input, start + 1, end);
    Parsed::Done(Expression::StrLiteral(unescape(body.as_slice())), multispace0(input, end + 1))
}

/// Makes a number literal of what the scan for a number found at `start`.
pub fn num_literal_from(input: &[u8], start: usize, lexeme: Lexeme) -> (r: Parsed<Expression>)
    ensures
        scan_expression(r) == num_literal_of(input@, start as int, lexeme),
        within(r, start, input@.len()),
{
    match lexeme {
        Lexeme::Taken(n) => {
            if start <= input.len() && n <= input.len() - start {
                Parsed::Done(Expression::NumLiteral(copy_range(input, start, start + n)), multispace0(input, start + n))
            } else {
                Parsed::Miss
            }
        },
        Lexeme::Absent => Parsed::Miss,
        Lexeme::Broken => Parsed::Fail(start),
    }
}

/// Reads a number literal.
pub fn num_literal(input: &[u8], pos: usize) -> (r: Parsed<Expression>)
    requires
        pos <= input@.len(),
    ensures
        scan_expression(r) == num_literal_spec(input@, pos as int),
        within(r, pos, input@.len()),
{
    let start = multispace0(input, pos);
    num_literal_from(input, start, float_at(input, start))
}

/// Reads a name as an expression.
pub fn ident(input: &[u8], pos: usize) -> (r: Parsed<Expression>)
    requires
        pos <= input@.len(),
    ensures
        scan_expression(r) == ident_spec(input@, pos as int),
        within(r, pos, input@.len()),
{
    match name(input, pos) {
        Some((res, end)) => Parsed::Done(Expression::Ident(res), end),
        None => Parsed::Miss,
    }
}

} // verus!
