//! The grammar of the language, as functions from the bytes of a program and a position.
//!
//! A rule matches at a position, or does not match there, in which case another rule may,
//! or finds the input broken, in which case no rule will match. Where several rules are
//! tried, the first that matches or finds the input broken decides. Every rule that opens
//! a bracket, a call, a conditional or the body of a loop or of a function reads what is
//! inside with a `depth` that is one less, and does not match where `depth` is zero.

use vstd::prelude::*;
use vstd::string::*;
use crate::ast::{ArithOp, CompareOp, ExpressionView, StatementView};
use crate::lex::{byte_is, float_lexeme, identifier_spec, quote_at, spaces, tag_spec, token_spec, unescape_spec, Lexeme};

verus! {

/// What a rule of the grammar makes of the input at a position.
pub enum Scan<V> {
    /// The rule matched: what it stands for, and the position after it.
    Done(V, int),
    /// The rule does not match here; another one may.
    Miss,
    /// The input is broken at a position, and no rule will match.
    Fail(int),
}

/// How deep brackets, calls, conditions and blocks may nest in a program.
pub const NESTING_LIMIT: usize = 200;

/// A name with white space around it: the name and the position after both.
pub open spec fn name_spec(input: Seq<u8>, pos: int) -> Option<(Seq<u8>, int)> {
    let start = spaces(input, pos);
    match identifier_spec(input, start) {
        Some(end) => Some((input.subrange(start, end), spaces(input, end))),
        None => None,
    }
}

/// A text literal: white space, `"`, the bytes up to the next `"`, which are unescaped,
/// that `"`, white space.
pub open spec fn str_literal_spec(input: Seq<u8>, pos: int) -> Scan<ExpressionView> {
    let start = spaces(input, pos);
    let end = quote_at(input, start + 1);
    if byte_is(input, start, '"' as u8) && byte_is(input, end, '"' as u8) {
        Scan::Done(ExpressionView::StrLiteral(unescape_spec(input.subrange(start + 1, end))), spaces(input, end + 1))
    } else {
        Scan::Miss
    }
}

/// A number literal at `start`, given what the scan for a number found there: the literal
/// keeps the text of the number, and white space may follow it. A number that breaks off
/// breaks the input.
pub open spec fn num_literal_of(input: Seq<u8>, start: int, lexeme: Lexeme) -> Scan<ExpressionView> {
    match lexeme {
        Lexeme::Taken(n) => if 0 <= start && start + n <= input.len() {
            Scan::Done(ExpressionView::NumLiteral(input.subrange(start, start + n)), spaces(input, start + n))
        } else {
            Scan::Miss
        },
        Lexeme::Absent => Scan::Miss,
        Lexeme::Broken => Scan::Fail(start),
    }
}

/// A number literal: white space, a number, white space.
pub open spec fn num_literal_spec(input: Seq<u8>, pos: int) -> Scan<ExpressionView> {
    let start = spaces(input, pos);
    num_literal_of(input, start, float_lexeme(input.skip(start)))
}

/// A name used as an expression.
pub open spec fn ident_spec(input: Seq<u8>, pos: int) -> Scan<ExpressionView> {
    match name_spec(input, pos) {
        Some((name, end)) => Scan::Done(ExpressionView::Ident(name), end),
        None => Scan::Miss,
    }
}

/// An indexed array: a name, and at once `[`, an expression and `]`; white space may stand
/// around the whole and around the expression.
pub open spec fn array_index_spec(input: Seq<u8>, pos: int, depth: nat) -> Scan<ExpressionView>
    decreases depth, 8nat, 0nat,
{
    let start = spaces(input, pos);
    match identifier_spec(input, start) {
        Some(end) => if byte_is(input, end, '[' as u8) && depth > 0 {
            match expr_spec(input, spaces(input, end + 1), (depth - 1) as nat) {
                Scan::Done(index, p) => {
                    let close = spaces(input, p);
                    if byte_is(input, close, ']' as u8) {
                        Scan::Done(
                            ExpressionView::ArrayIndex(input.subrange(start, end), Box::new(index)),
                            spaces(input, close + 1),
                        )
                    } else {
                        Scan::Miss
                    }
                },
                Scan::Miss => Scan::Miss,
                Scan::Fail(p) => Scan::Fail(p),
            }
        } else {
            Scan::Miss
        },
        None => Scan::Miss,
    }
}

/// The items of an array literal after the first ones, which are `acc`: each a `,` with
/// white space around it and an expression. A `,` that no expression follows is left
/// unread.
pub open spec fn items_rest_spec(input: Seq<u8>, pos: int, acc: Seq<ExpressionView>, depth: nat) -> Scan<Seq<ExpressionView>>
    decreases depth, 22nat, input.len() - pos,
{
    let comma = spaces(input, pos);
    if byte_is(input, comma, ',' as u8) {
        match expr_spec(input, spaces(input, comma + 1), depth) {
            Scan::Done(item, p) => if pos < p <= input.len() {
                items_rest_spec(input, p, acc.push(item), depth)
            } else {
                Scan::Miss
            },
            Scan::Miss => Scan::Done(acc, pos),
            Scan::Fail(p) => Scan::Fail(p),
        }
    } else {
        Scan::Done(acc, pos)
    }
}

/// The items of an array literal: expressions with `,` between them, or none.
pub open spec fn items_spec(input: Seq<u8>, pos: int, depth: nat) -> Scan<Seq<ExpressionView>>
    decreases depth, 23nat, 0nat,
{
    match expr_spec(input, pos, depth) {
        Scan::Done(item, p) => items_rest_spec(input, p, seq![item], depth),
        Scan::Miss => Scan::Done(Seq::empty(), pos),
        Scan::Fail(p) => Scan::Fail(p),
    }
}

/// An array literal: `[`, the items, `]`, with no white space before or after.
pub open spec fn array_literal_spec(input: Seq<u8>, pos: int, depth: nat) -> Scan<ExpressionView>
    decreases depth, 8nat, 0nat,
{
    if byte_is(input, pos, '[' as u8) && depth > 0 {
        match items_spec(input, pos + 1, (depth - 1) as nat) {
            Scan::Done(items, p) => if byte_is(input, p, ']' as u8) {
                Scan::Done(ExpressionView::ArrayLiteral(items), p + 1)
            } else {
                Scan::Miss
            },
            Scan::Miss => Scan::Miss,
            Scan::Fail(p) => Scan::Fail(p),
        }
    } else {
        Scan::Miss
    }
}

/// The arguments of a call after the first ones, which are `acc`: each is white space, an
/// expression, white space, and a `,` or none with white space after it.
pub open spec fn args_spec(input: Seq<u8>, pos: int, acc: Seq<ExpressionView>, depth: nat) -> Scan<Seq<ExpressionView>>
    decreases depth, 22nat, input.len() - pos,
{
    match expr_spec(input, spaces(input, pos), depth) {
        Scan::Done(arg, p) => {
            let comma = spaces(input, p);
            let next = if byte_is(input, comma, ',' as u8) {
                spaces(input, comma + 1)
            } else {
                comma
            };
            if pos < next <= input.len() {
                args_spec(input, next, acc.push(arg), depth)
            } else {
                Scan::Miss
            }
        },
        Scan::Miss => Scan::Done(acc, pos),
        Scan::Fail(p) => Scan::Fail(p),
    }
}

/// A call: a name, `(`, the arguments, `)`; white space may stand around the name and
/// around the brackets' whole, and none before `)` unless an argument precedes it.
pub open spec fn func_call_spec(input: Seq<u8>, pos: int, depth: nat) -> Scan<ExpressionView>
    decreases depth, 8nat, 0nat,
{
    match name_spec(input, pos) {
        Some((name, open)) => if byte_is(input, open, '(' as u8) && depth > 0 {
            match args_spec(input, open + 1, Seq::empty(), (depth - 1) as nat) {
                Scan::Done(args, p) => if byte_is(input, p, ')' as u8) {
                    Scan::Done(ExpressionView::FnInvoke(name, args), spaces(input, p + 1))
                } else {
                    Scan::Miss
                },
                Scan::Miss => Scan::Miss,
                Scan::Fail(p) => Scan::Fail(p),
            }
        } else {
            Scan::Miss
        },
        None => Scan::Miss,
    }
}

/// An expression in round brackets, with white space around the whole.
pub open spec fn parens_spec(input: Seq<u8>, pos: int, depth: nat) -> Scan<ExpressionView>
    decreases depth, 8nat, 0nat,
{
    let open = spaces(input, pos);
    if byte_is(input, open, '(' as u8) && depth > 0 {
        match expr_spec(input, open + 1, (depth - 1) as nat) {
            Scan::Done(e, p) => if byte_is(input, p, ')' as u8) {
                Scan::Done(e, spaces(input, p + 1))
            } else {
                Scan::Miss
            },
            Scan::Miss => Scan::Miss,
            Scan::Fail(p) => Scan::Fail(p),
        }
    } else {
        Scan::Miss
    }
}

/// A factor: the first that matches of an indexed array, an array literal, a text literal,
/// a number literal, a call, a name and an expression in brackets.
pub open spec fn factor_spec(input: Seq<u8>, pos: int, depth: nat) -> Scan<ExpressionView>
    decreases depth, 10nat, 0nat,
{
    let a = array_index_spec(input, pos, depth);
    if !(a is Miss) {
        a
    } else {
        let b = array_literal_spec(input, pos, depth);
        if !(b is Miss) {
            b
        } else {
            let c = str_literal_spec(input, pos);
            if !(c is Miss) {
                c
            } else {
                let d = num_literal_spec(input, pos);
                if !(d is Miss) {
                    d
                } else {
                    let e = func_call_spec(input, pos, depth);
                    if !(e is Miss) {
                        e
                    } else {
                        let f = ident_spec(input, pos);
                        if !(f is Miss) {
                            f
                        } else {
                            parens_spec(input, pos, depth)
                        }
                    }
                }
            }
        }
    }
}

/// The operator of a product at `pos`, after white space.
pub open spec fn term_op_spec(input: Seq<u8>, pos: int) -> Option<ArithOp> {
    let at = spaces(input, pos);
    if byte_is(input, at, '*' as u8) {
        Some(ArithOp::Mul)
    } else if byte_is(input, at, '/' as u8) {
        Some(ArithOp::Div)
    } else {
        None
    }
}

/// The operator of a sum at `pos`, after white space.
pub open spec fn num_op_spec(input: Seq<u8>, pos: int) -> Option<ArithOp> {
    let at = spaces(input, pos);
    if byte_is(input, at, '+' as u8) {
        Some(ArithOp::Add)
    } else if byte_is(input, at, '-' as u8) {
        Some(ArithOp::Sub)
    } else {
        None
    }
}

/// The operator of a comparison at `pos`, after white space.
pub open spec fn cond_op_spec(input: Seq<u8>, pos: int) -> Option<CompareOp> {
    let at = spaces(input, pos);
    if byte_is(input, at, '<' as u8) {
        Some(CompareOp::Lt)
    } else if byte_is(input, at, '>' as u8) {
        Some(CompareOp::Gt)
    } else {
        None
    }
}

/// The position after an operator of one byte at `pos` and the white space around it.
pub open spec fn after_op(input: Seq<u8>, pos: int) -> int {
    spaces(input, spaces(input, pos) + 1)
}

/// The rest of a product whose left side so far is `acc`: each `*` or `/` with a factor
/// joins the left side, so that the operators group from the left.
pub open spec fn term_rest_spec(input: Seq<u8>, pos: int, acc: ExpressionView, depth: nat) -> Scan<ExpressionView>
    decreases depth, 12nat, input.len() - pos,
{
    match term_op_spec(input, pos) {
        Some(op) => match factor_spec(input, after_op(input, pos), depth) {
            Scan::Done(rhs, p) => if pos < p <= input.len() {
                term_rest_spec(input, p, ExpressionView::Arith(op, Box::new(acc), Box::new(rhs)), depth)
            } else {
                Scan::Miss
            },
            Scan::Miss => Scan::Done(acc, pos),
            Scan::Fail(p) => Scan::Fail(p),
        },
        None => Scan::Done(acc, pos),
    }
}

/// A product: a factor, and factors joined to it by `*` or `/`.
pub open spec fn term_spec(input: Seq<u8>, pos: int, depth: nat) -> Scan<ExpressionView>
    decreases depth, 13nat, 0nat,
{
    match factor_spec(input, pos, depth) {
        Scan::Done(init, p) => term_rest_spec(input, p, init, depth),
        Scan::Miss => Scan::Miss,
        Scan::Fail(p) => Scan::Fail(p),
    }
}

/// The rest of a sum whose left side so far is `acc`: each `+` or `-` with a product joins
/// the left side, so that the operators group from the left.
pub open spec fn num_rest_spec(input: Seq<u8>, pos: int, acc: ExpressionView, depth: nat) -> Scan<ExpressionView>
    decreases depth, 14nat, input.len() - pos,
{
    match num_op_spec(input, pos) {
        Some(op) => match term_spec(input, after_op(input, pos), depth) {
            Scan::Done(rhs, p) => if pos < p <= input.len() {
                num_rest_spec(input, p, ExpressionView::Arith(op, Box::new(acc), Box::new(rhs)), depth)
            } else {
                Scan::Miss
            },
            Scan::Miss => Scan::Done(acc, pos),
            Scan::Fail(p) => Scan::Fail(p),
        },
        None => Scan::Done(acc, pos),
    }
}

/// A sum: a product, and products joined to it by `+` or `-`.
pub open spec fn num_expr_spec(input: Seq<u8>, pos: int, depth: nat) -> Scan<ExpressionView>
    decreases depth, 15nat, 0nat,
{
    match term_spec(input, pos, depth) {
        Scan::Done(init, p) => num_rest_spec(input, p, init, depth),
        Scan::Miss => Scan::Miss,
        Scan::Fail(p) => Scan::Fail(p),
    }
}

/// A comparison: a sum, `<` or `>`, a sum. Comparisons do not chain.
pub open spec fn cond_expr_spec(input: Seq<u8>, pos: int, depth: nat) -> Scan<ExpressionView>
    decreases depth, 16nat, 0nat,
{
    match num_expr_spec(input, pos, depth) {
        Scan::Done(first, p) => match cond_op_spec(input, p) {
            Some(op) => match num_expr_spec(input, after_op(input, p), depth) {
                Scan::Done(second, q) => Scan::Done(ExpressionView::Compare(op, Box::new(first), Box::new(second)), q),
                Scan::Miss => Scan::Miss,
                Scan::Fail(q) => Scan::Fail(q),
            },
            None => Scan::Miss,
        },
        Scan::Miss => Scan::Miss,
        Scan::Fail(p) => Scan::Fail(p),
    }
}

/// A block: `{`, statements, `}`, with white space around each bracket.
pub open spec fn block_spec(input: Seq<u8>, pos: int, depth: nat) -> Scan<Seq<StatementView>>
    decreases depth, 32nat, 0nat,
{
    match token_spec(input, pos, "{".spec_bytes()) {
        Some(open) => match statements_spec(input, open, depth) {
            Scan::Done(stmts, p) => match token_spec(input, p, "}".spec_bytes()) {
                Some(close) => Scan::Done(stmts, close),
                None => Scan::Miss,
            },
            Scan::Miss => Scan::Miss,
            Scan::Fail(p) => Scan::Fail(p),
        },
        None => Scan::Miss,
    }
}

/// What follows the first block of a conditional, which ends at `pos`: `else` and a block,
/// or `else` and another conditional, which then is the only statement of the second
/// block, or nothing.
pub open spec fn else_spec(input: Seq<u8>, pos: int, depth: nat) -> Scan<Option<Seq<StatementView>>>
    decreases depth, 33nat, 0nat,
{
    match token_spec(input, pos, "else".spec_bytes()) {
        Some(p) => match block_spec(input, p, depth) {
            Scan::Done(stmts, q) => Scan::Done(Some(stmts), q),
            Scan::Fail(q) => Scan::Fail(q),
            Scan::Miss => match if_expr_spec(input, p, depth) {
                Scan::Done(e, q) => Scan::Done(Some(seq![StatementView::Expression(e)]), q),
                Scan::Fail(q) => Scan::Fail(q),
                Scan::Miss => Scan::Done(None, pos),
            },
        },
        None => Scan::Done(None, pos),
    }
}

/// A conditional: `if`, an expression, a block, and what `else_spec` says.
pub open spec fn if_expr_spec(input: Seq<u8>, pos: int, depth: nat) -> Scan<ExpressionView>
    decreases depth, 18nat, 0nat,
{
    match token_spec(input, pos, "if".spec_bytes()) {
        Some(p) => if depth > 0 {
            match expr_spec(input, p, (depth - 1) as nat) {
                Scan::Done(cond, q) => match block_spec(input, q, (depth - 1) as nat) {
                    Scan::Done(t_case, r) => match else_spec(input, r, (depth - 1) as nat) {
                        Scan::Done(f_case, end) => Scan::Done(ExpressionView::If(Box::new(cond), t_case, f_case), end),
                        Scan::Miss => Scan::Miss,
                        Scan::Fail(end) => Scan::Fail(end),
                    },
                    Scan::Miss => Scan::Miss,
                    Scan::Fail(r) => Scan::Fail(r),
                },
                Scan::Miss => Scan::Miss,
                Scan::Fail(q) => Scan::Fail(q),
            }
        } else {
            Scan::Miss
        },
        None => Scan::Miss,
    }
}

/// An expression: the first that matches of a conditional, a comparison and a sum.
pub open spec fn expr_spec(input: Seq<u8>, pos: int, depth: nat) -> Scan<ExpressionView>
    decreases depth, 20nat, 0nat,
{
    let a = if_expr_spec(input, pos, depth);
    if !(a is Miss) {
        a
    } else {
        let b = cond_expr_spec(input, pos, depth);
        if !(b is Miss) {
            b
        } else {
            num_expr_spec(input, pos, depth)
        }
    }
}

/// An expression with white space around it.
pub open spec fn spaced_expr_spec(input: Seq<u8>, pos: int, depth: nat) -> Scan<ExpressionView>
    decreases depth, 21nat, 0nat,
{
    match expr_spec(input, spaces(input, pos), depth) {
        Scan::Done(e, p) => Scan::Done(e, spaces(input, p)),
        Scan::Miss => Scan::Miss,
        Scan::Fail(p) => Scan::Fail(p),
    }
}

/// A name, `=` and an expression, with white space around each, from `pos` on.
pub open spec fn binding_spec(input: Seq<u8>, pos: int, depth: nat) -> Scan<(Seq<u8>, ExpressionView)>
    decreases depth, 25nat, 0nat,
{
    match name_spec(input, pos) {
        Some((name, p)) => match token_spec(input, p, "=".spec_bytes()) {
            Some(q) => match spaced_expr_spec(input, q, depth) {
                Scan::Done(e, end) => Scan::Done((name, e), end),
                Scan::Miss => Scan::Miss,
                Scan::Fail(end) => Scan::Fail(end),
            },
            None => Scan::Miss,
        },
        None => Scan::Miss,
    }
}

/// A declaration: `let`, white space, and a binding.
pub open spec fn let_def_spec(input: Seq<u8>, pos: int, depth: nat) -> Scan<StatementView>
    decreases depth, 26nat, 0nat,
{
    match tag_spec(input, spaces(input, pos), "let".spec_bytes()) {
        Some(p) => if p < spaces(input, p) {
            match binding_spec(input, spaces(input, p), depth) {
                Scan::Done((name, e), end) => Scan::Done(StatementView::LetDef(name, e), end),
                Scan::Miss => Scan::Miss,
                Scan::Fail(end) => Scan::Fail(end),
            }
        } else {
            Scan::Miss
        },
        None => Scan::Miss,
    }
}

/// An assignment: a binding.
pub open spec fn let_assign_spec(input: Seq<u8>, pos: int, depth: nat) -> Scan<StatementView>
    decreases depth, 26nat, 0nat,
{
    match binding_spec(input, pos, depth) {
        Scan::Done((name, e), end) => Scan::Done(StatementView::LetAssign(name, e), end),
        Scan::Miss => Scan::Miss,
        Scan::Fail(end) => Scan::Fail(end),
    }
}

/// An expression as a statement.
pub open spec fn expr_statement_spec(input: Seq<u8>, pos: int, depth: nat) -> Scan<StatementView>
    decreases depth, 26nat, 0nat,
{
    match expr_spec(input, pos, depth) {
        Scan::Done(e, end) => Scan::Done(StatementView::Expression(e), end),
        Scan::Miss => Scan::Miss,
        Scan::Fail(end) => Scan::Fail(end),
    }
}

/// The step of a loop, which follows the end at `pos`: `step` and an expression, or
/// nothing.
pub open spec fn step_clause_spec(input: Seq<u8>, pos: int, depth: nat) -> Scan<Option<ExpressionView>>
    decreases depth, 25nat, 0nat,
{
    match token_spec(input, pos, "step".spec_bytes()) {
        Some(p) => match spaced_expr_spec(input, p, depth) {
            Scan::Done(e, end) => Scan::Done(Some(e), end),
            Scan::Miss => Scan::Done(None, pos),
            Scan::Fail(end) => Scan::Fail(end),
        },
        None => Scan::Done(None, pos),
    }
}

/// The head of a loop up to its variable: `for`, a name, `in`.
pub open spec fn for_head_spec(input: Seq<u8>, pos: int) -> Option<(Seq<u8>, int)> {
    match token_spec(input, pos, "for".spec_bytes()) {
        Some(p) => match name_spec(input, p) {
            Some((loop_var, q)) => match token_spec(input, q, "in".spec_bytes()) {
                Some(r) => Some((loop_var, r)),
                None => None,
            },
            None => None,
        },
        None => None,
    }
}

/// A loop: `for`, a name, `in`, an expression, `to`, an expression, a step or none, and a
/// block.
pub open spec fn for_statement_spec(input: Seq<u8>, pos: int, depth: nat) -> Scan<StatementView>
    decreases depth, 26nat, 0nat,
{
    match for_head_spec(input, pos) {
        Some((loop_var, p)) => match spaced_expr_spec(input, p, depth) {
            Scan::Done(start, q) => match token_spec(input, q, "to".spec_bytes()) {
                Some(r) => match spaced_expr_spec(input, r, depth) {
                    Scan::Done(end, s) => match step_clause_spec(input, s, depth) {
                        Scan::Done(step, t) => if depth > 0 {
                            match block_spec(input, t, (depth - 1) as nat) {
                                Scan::Done(stmts, u) => Scan::Done(StatementView::For { loop_var, start, end, step, stmts }, u),
                                Scan::Miss => Scan::Miss,
                                Scan::Fail(u) => Scan::Fail(u),
                            }
                        } else {
                            Scan::Miss
                        },
                        Scan::Miss => Scan::Miss,
                        Scan::Fail(t) => Scan::Fail(t),
                    },
                    Scan::Miss => Scan::Miss,
                    Scan::Fail(s) => Scan::Fail(s),
                },
                None => Scan::Miss,
            },
            Scan::Miss => Scan::Miss,
            Scan::Fail(q) => Scan::Fail(q),
        },
        None => Scan::Miss,
    }
}

/// The parameters of a declared function after the first ones, which are `acc`: each a `,`
/// at once and a name with white space around it. A `,` that no name follows is left
/// unread.
pub open spec fn params_rest_spec(input: Seq<u8>, pos: int, acc: Seq<Seq<u8>>) -> (Seq<Seq<u8>>, int)
    decreases input.len() - pos,
{
    if byte_is(input, pos, ',' as u8) {
        match name_spec(input, pos + 1) {
            Some((name, p)) => if pos < p <= input.len() {
                params_rest_spec(input, p, acc.push(name))
            } else {
                (acc, pos)
            },
            None => (acc, pos),
        }
    } else {
        (acc, pos)
    }
}

/// The parameters of a declared function: names with `,` between them, or none.
pub open spec fn params_spec(input: Seq<u8>, pos: int) -> (Seq<Seq<u8>>, int) {
    match name_spec(input, pos) {
        Some((name, p)) => params_rest_spec(input, p, seq![name]),
        None => (Seq::empty(), pos),
    }
}

/// The head of a function's declaration: `func`, a name, `(`, the parameters, `)`.
pub open spec fn fn_head_spec(input: Seq<u8>, pos: int) -> Option<(Seq<u8>, Seq<Seq<u8>>, int)> {
    match token_spec(input, pos, "func".spec_bytes()) {
        Some(p) => match name_spec(input, p) {
            Some((name, q)) => match token_spec(input, q, "(".spec_bytes()) {
                Some(r) => {
                    let (args, s) = params_spec(input, r);
                    match token_spec(input, s, ")".spec_bytes()) {
                        Some(t) => Some((name, args, t)),
                        None => None,
                    }
                },
                None => None,
            },
            None => None,
        },
        None => None,
    }
}

/// The declaration of a function: its head and a block.
pub open spec fn fn_def_statement_spec(input: Seq<u8>, pos: int, depth: nat) -> Scan<StatementView>
    decreases depth, 26nat, 0nat,
{
    match fn_head_spec(input, pos) {
        Some((name, args, p)) => if depth > 0 {
            match block_spec(input, p, (depth - 1) as nat) {
                Scan::Done(stmts, end) => Scan::Done(StatementView::FnDef { name, args, stmts }, end),
                Scan::Miss => Scan::Miss,
                Scan::Fail(end) => Scan::Fail(end),
            }
        } else {
            Scan::Miss
        },
        None => Scan::Miss,
    }
}

/// A `return`: the word and an expression.
pub open spec fn return_statement_spec(input: Seq<u8>, pos: int, depth: nat) -> Scan<StatementView>
    decreases depth, 26nat, 0nat,
{
    match token_spec(input, pos, "return".spec_bytes()) {
        Some(p) => match spaced_expr_spec(input, p, depth) {
            Scan::Done(e, end) => Scan::Done(StatementView::Return(e), end),
            Scan::Miss => Scan::Miss,
            Scan::Fail(end) => Scan::Fail(end),
        },
        None => Scan::Miss,
    }
}

/// A `break`.
pub open spec fn break_statement_spec(input: Seq<u8>, pos: int) -> Scan<StatementView> {
    match token_spec(input, pos, "break".spec_bytes()) {
        Some(p) => Scan::Done(StatementView::Break, p),
        None => Scan::Miss,
    }
}

/// A `continue`.
pub open spec fn continue_statement_spec(input: Seq<u8>, pos: int) -> Scan<StatementView> {
    match token_spec(input, pos, "continue".spec_bytes()) {
        Some(p) => Scan::Done(StatementView::Continue, p),
        None => Scan::Miss,
    }
}

/// The end of a statement at `pos`: `;` and white space. The last statement of a list may
/// go without.
pub open spec fn terminator_spec(input: Seq<u8>, pos: int, last: bool) -> Option<int> {
    if byte_is(input, pos, ';' as u8) {
        Some(spaces(input, pos + 1))
    } else if last {
        Some(pos)
    } else {
        None
    }
}

/// A statement that must end as `terminator_spec` says: without that end it does not
/// match.
pub open spec fn terminated_spec(s: Scan<StatementView>, input: Seq<u8>, last: bool) -> Scan<StatementView> {
    match s {
        Scan::Done(stmt, p) => match terminator_spec(input, p, last) {
            Some(end) => Scan::Done(stmt, end),
            None => Scan::Miss,
        },
        other => other,
    }
}

/// A statement that is neither a declaration, an assignment, the declaration of a function
/// nor a loop: the first that matches of a `return`, a `break`, a `continue` and an
/// expression, each with its end.
pub open spec fn simple_statement_spec(input: Seq<u8>, pos: int, last: bool, depth: nat) -> Scan<StatementView>
    decreases depth, 27nat, 0nat,
{
    let a = terminated_spec(return_statement_spec(input, pos, depth), input, last);
    if !(a is Miss) {
        a
    } else {
        let b = terminated_spec(break_statement_spec(input, pos), input, last);
        if !(b is Miss) {
            b
        } else {
            let c = terminated_spec(continue_statement_spec(input, pos), input, last);
            if !(c is Miss) {
                c
            } else {
                terminated_spec(expr_statement_spec(input, pos, depth), input, last)
            }
        }
    }
}

/// A statement: the first that matches of a declaration, an assignment, the declaration
/// of a function, a loop and a simple statement. Declarations and assignments have an end
/// as `terminator_spec` says; the declaration of a function and a loop have none.
pub open spec fn general_statement_spec(input: Seq<u8>, pos: int, last: bool, depth: nat) -> Scan<StatementView>
    decreases depth, 28nat, 0nat,
{
    let a = terminated_spec(let_def_spec(input, pos, depth), input, last);
    if !(a is Miss) {
        a
    } else {
        let b = terminated_spec(let_assign_spec(input, pos, depth), input, last);
        if !(b is Miss) {
            b
        } else {
            let c = fn_def_statement_spec(input, pos, depth);
            if !(c is Miss) {
                c
            } else {
                let d = for_statement_spec(input, pos, depth);
                if !(d is Miss) {
                    d
                } else {
                    simple_statement_spec(input, pos, last, depth)
                }
            }
        }
    }
}

/// The statements of a list after the first ones, which are `acc`: statements that each
/// have their end, then one that may go without, or none, then white space.
pub open spec fn statements_rest_spec(input: Seq<u8>, pos: int, acc: Seq<StatementView>, depth: nat) -> Scan<Seq<StatementView>>
    decreases depth, 30nat, input.len() - pos,
{
    match general_statement_spec(input, pos, false, depth) {
        Scan::Done(stmt, p) => if pos < p <= input.len() {
            statements_rest_spec(input, p, acc.push(stmt), depth)
        } else {
            Scan::Miss
        },
        Scan::Fail(p) => Scan::Fail(p),
        Scan::Miss => match general_statement_spec(input, pos, true, depth) {
            Scan::Done(stmt, p) => Scan::Done(acc.push(stmt), spaces(input, p)),
            Scan::Fail(p) => Scan::Fail(p),
            Scan::Miss => Scan::Done(acc, spaces(input, pos)),
        },
    }
}

/// A list of statements.
pub open spec fn statements_spec(input: Seq<u8>, pos: int, depth: nat) -> Scan<Seq<StatementView>>
    decreases depth, 31nat, 0nat,
{
    statements_rest_spec(input, pos, Seq::empty(), depth)
}

/// A program: a list of statements that takes up the whole input. Otherwise the input is
/// at fault where the list ends, or where it is broken, or at its start where there is no
/// list.
pub open spec fn statements_finish_spec(input: Seq<u8>) -> Result<Seq<StatementView>, int> {
    match statements_spec(input, 0, NESTING_LIMIT as nat) {
        Scan::Done(stmts, p) => if p == input.len() {
            Ok(stmts)
        } else {
            Err(p)
        },
        Scan::Miss => Err(0),
        Scan::Fail(p) => Err(p),
    }
}

} // verus!
