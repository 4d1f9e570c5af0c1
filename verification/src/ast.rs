//! The statements and the expressions of a program, as the parser makes them and the
//! evaluator reads them, and what they stand for.

use vstd::prelude::*;

verus! {

/// An operator of arithmetic.
#[derive(Clone, Copy, PartialEq, Eq, Debug, Structural)]
pub enum ArithOp {
    Add,
    Sub,
    Mul,
    Div,
}

/// An operator that compares.
#[derive(Clone, Copy, PartialEq, Eq, Debug, Structural)]
pub enum CompareOp {
    Gt,
    Lt,
}

/// An expression. Names and texts are byte strings; a number literal keeps its text.
#[derive(Debug, PartialEq)]
pub enum Expression {
    Ident(Vec<u8>),
    NumLiteral(Vec<u8>),
    StrLiteral(Vec<u8>),
    ArrayLiteral(Vec<Expression>),
    ArrayIndex(Vec<u8>, Box<Expression>),
    FnInvoke(Vec<u8>, Vec<Expression>),
    Arith(ArithOp, Box<Expression>, Box<Expression>),
    Compare(CompareOp, Box<Expression>, Box<Expression>),
    If(Box<Expression>, Vec<Statement>, Option<Vec<Statement>>),
}

/// A statement.
#[derive(Debug, PartialEq)]
pub enum Statement {
    Expression(Expression),
    LetDef(Vec<u8>, Expression),
    LetAssign(Vec<u8>, Expression),
    For { loop_var: Vec<u8>, start: Expression, end: Expression, step: Option<Expression>, stmts: Vec<Statement> },
    FnDef { name: Vec<u8>, args: Vec<Vec<u8>>, stmts: Vec<Statement> },
    Return(Expression),
    Break,
    Continue,
}

/// What an [`Expression`] stands for.
pub enum ExpressionView {
    Ident(Seq<u8>),
    NumLiteral(Seq<u8>),
    StrLiteral(Seq<u8>),
    ArrayLiteral(Seq<ExpressionView>),
    ArrayIndex(Seq<u8>, Box<ExpressionView>),
    FnInvoke(Seq<u8>, Seq<ExpressionView>),
    Arith(ArithOp, Box<ExpressionView>, Box<ExpressionView>),
    Compare(CompareOp, Box<ExpressionView>, Box<ExpressionView>),
    If(Box<ExpressionView>, Seq<StatementView>, Option<Seq<StatementView>>),
}

/// What a [`Statement`] stands for.
pub enum StatementView {
    Expression(ExpressionView),
    LetDef(Seq<u8>, ExpressionView),
    LetAssign(Seq<u8>, ExpressionView),
    For {
        loop_var: Seq<u8>,
        start: ExpressionView,
        end: ExpressionView,
        step: Option<ExpressionView>,
        stmts: Seq<StatementView>,
    },
    FnDef { name: Seq<u8>, args: Seq<Seq<u8>>, stmts: Seq<StatementView> },
    Return(ExpressionView),
    Break,
    Continue,
}

/// The views of the names of `names`, in their order.
pub open spec fn view_names(names: Seq<Vec<u8>>) -> Seq<Seq<u8>> {
    Seq::new(names.len(), |i: int| names[i]@)
}

/// What `e` stands for.
pub open spec fn view_expression(e: Expression) -> ExpressionView
    decreases e,
{
    match e {
        Expression::Ident(name) => ExpressionView::Ident(name@),
        Expression::NumLiteral(text) => ExpressionView::NumLiteral(text@),
        Expression::StrLiteral(text) => ExpressionView::StrLiteral(text@),
        Expression::ArrayLiteral(items) => ExpressionView::ArrayLiteral(view_expressions(items)),
        Expression::ArrayIndex(name, index) => ExpressionView::ArrayIndex(
            name@,
            Box::new(view_expression(*index)),
        ),
        Expression::FnInvoke(name, args) => ExpressionView::FnInvoke(name@, view_expressions(args)),
        Expression::Arith(op, lhs, rhs) => ExpressionView::Arith(
            op,
            Box::new(view_expression(*lhs)),
            Box::new(view_expression(*rhs)),
        ),
        Expression::Compare(op, lhs, rhs) => ExpressionView::Compare(
            op,
            Box::new(view_expression(*lhs)),
            Box::new(view_expression(*rhs)),
        ),
        Expression::If(cond, t_case, f_case) => ExpressionView::If(
            Box::new(view_expression(*cond)),
            view_statements(t_case),
            match f_case {
                Some(stmts) => Some(view_statements(stmts)),
                None => None,
            },
        ),
    }
}

/// What the expressions of `items` stand for, in their order.
pub open spec fn view_expressions(items: Vec<Expression>) -> Seq<ExpressionView>
    decreases items,
{
    Seq::new(
        items@.len(),
        |i: int|
            if 0 <= i < items@.len() {
                view_expression(items@[i])
            } else {
                ExpressionView::Ident(Seq::empty())
            },
    )
}

/// What `s` stands for.
pub open spec fn view_statement(s: Statement) -> StatementView
    decreases s,
{
    match s {
        Statement::Expression(e) => StatementView::Expression(view_expression(e)),
        Statement::LetDef(name, e) => StatementView::LetDef(name@, view_expression(e)),
        Statement::LetAssign(name, e) => StatementView::LetAssign(name@, view_expression(e)),
        Statement::For { loop_var, start, end, step, stmts } => StatementView::For {
            loop_var: loop_var@,
            start: view_expression(start),
            end: view_expression(end),
            step: match step {
                Some(e) => Some(view_expression(e)),
                None => None,
            },
            stmts: view_statements(stmts),
        },
        Statement::FnDef { name, args, stmts } => StatementView::FnDef {
            name: name@,
            args: view_names(args@),
            stmts: view_statements(stmts),
        },
        Statement::Return(e) => StatementView::Return(view_expression(e)),
        Statement::Break => StatementView::Break,
        Statement::Continue => StatementView::Continue,
    }
}

/// What the statements of `stmts` stand for, in their order.
pub open spec fn view_statements(stmts: Vec<Statement>) -> Seq<StatementView>
    decreases stmts,
{
    Seq::new(
        stmts@.len(),
        |i: int|
            if 0 <= i < stmts@.len() {
                view_statement(stmts@[i])
            } else {
                StatementView::Break
            },
    )
}

impl View for Expression {
    type V = ExpressionView;

    open spec fn view(&self) -> ExpressionView {
        view_expression(*self)
    }
}

impl View for Statement {
    type V = StatementView;

    open spec fn view(&self) -> StatementView {
        view_statement(*self)
    }
}

} // verus!
