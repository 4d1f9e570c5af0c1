//! A small scripting language: a parser that turns the text of a program into statements,
//! and an evaluator that runs them.
//!
//! Numbers of the language are binary64 numbers. This library holds them as their 64 bits
//! and never computes with them: whatever needs the arithmetic of such numbers is a
//! [`unit::Request`] to a floating-point unit outside, and a run is a function of the
//! program and of the answers that the unit has given so far. [`stmts::run`] runs a program
//! as far as the answers reach; where it ends pending on a request, the caller answers the
//! request, adds the answer to the others and runs the program again.
//!
//! Every function states what it returns over the mathematical model of its arguments:
//! the grammar is in [`grammar`], the meaning of programs in [`semantics`], and what holds
//! of all programs in [`laws`].

pub mod ast;
pub mod eval;
pub mod frame;
pub mod grammar;
pub mod laws;
pub mod lex;
pub mod loops;
pub mod native;
pub mod ops;
pub mod parse_base;
pub mod parse_expr;
pub mod parse_factor;
pub mod parse_stmt;
pub mod semantics;
pub mod stmts;
pub mod table;
pub mod text;
pub mod unit;
pub mod value;

pub use ast::{ArithOp, CompareOp, Expression, Statement};
pub use frame::{FnDef, NativeFn, StackFrame, UserFn};
pub use parse_stmt::{parse, statements_finish, SyntaxFault};
pub use stmts::{run, Report};
pub use unit::{Answers, BinaryMath, BreakResult, EvalResult, Request, Session, UnaryMath};
pub use value::{Fault, Value};
