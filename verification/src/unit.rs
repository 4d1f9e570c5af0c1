//! What a run asks of the floating-point unit and what it holds of the answers.

use vstd::prelude::*;
use crate::ast::ArithOp;
use crate::value::{Fault, Value, ValueView};

verus! {

/// A function of one number that only the floating-point unit computes.
#[derive(Clone, Copy, PartialEq, Eq, Debug, Structural)]
pub enum UnaryMath {
    Sqrt,
    Sin,
    Cos,
    Tan,
    Asin,
    Acos,
    Atan,
    Exp,
    Log10,
    Floor,
}

/// A function of two numbers that only the floating-point unit computes.
#[derive(Clone, Copy, PartialEq, Eq, Debug, Structural)]
pub enum BinaryMath {
    Atan2,
    Pow,
    Log,
}

/// What a run asks of the floating-point unit. Numbers go and come as their 64 bits.
#[derive(Debug, PartialEq, Clone)]
pub enum Request {
    /// The number that a literal's text spells.
    Literal(Vec<u8>),
    /// The number nearest to an integer.
    FromInteger(i64),
    /// The result of an operator on two numbers.
    Arith(ArithOp, u64, u64),
    /// The result of a function of one number.
    Unary(UnaryMath, u64),
    /// The result of a function of two numbers.
    Binary(BinaryMath, u64, u64),
    /// A number cut to an integer, which comes back as the 64 bits of that integer.
    Truncate(u64),
    /// How the first number stands to the second: 0 for less, 1 for equal, 2 for greater,
    /// any other answer for neither.
    Compare(u64, u64),
    /// The text that displays a number.
    Display(u64),
    /// The text that shows a number for debugging.
    Debug(u64),
}

/// What a [`Request`] stands for.
pub enum RequestView {
    Literal(Seq<u8>),
    FromInteger(i64),
    Arith(ArithOp, u64, u64),
    Unary(UnaryMath, u64),
    Binary(BinaryMath, u64, u64),
    Truncate(u64),
    Compare(u64, u64),
    Display(u64),
    Debug(u64),
}

impl View for Request {
    type V = RequestView;

    open spec fn view(&self) -> RequestView {
        match self {
            Request::Literal(text) => RequestView::Literal(text@),
            Request::FromInteger(n) => RequestView::FromInteger(*n),
            Request::Arith(op, a, b) => RequestView::Arith(*op, *a, *b),
            Request::Unary(f, a) => RequestView::Unary(*f, *a),
            Request::Binary(f, a, b) => RequestView::Binary(*f, *a, *b),
            Request::Truncate(a) => RequestView::Truncate(*a),
            Request::Compare(a, b) => RequestView::Compare(*a, *b),
            Request::Display(a) => RequestView::Display(*a),
            Request::Debug(a) => RequestView::Debug(*a),
        }
    }
}

impl Request {
    /// Whether the answer is a text; otherwise it is a number.
    pub fn wants_text(&self) -> (r: bool)
        ensures
            r == (self@ is Display || self@ is Debug),
    {
        match self {
            Request::Display(_) => true,
            Request::Debug(_) => true,
            _ => false,
        }
    }
}

/// Why the evaluation of a statement or an expression did not end in a value.
#[derive(Debug, PartialEq, Clone)]
pub enum BreakResult {
    Return(Value),
    Break,
    Continue,
    /// The run is over, and failed.
    Fault(Fault),
    /// The run needs an answer that it was not given.
    Pending(Request),
}

/// What a [`BreakResult`] stands for.
pub enum BreakResultView {
    Return(ValueView),
    Break,
    Continue,
    Fault(Fault),
    Pending(RequestView),
}

impl View for BreakResult {
    type V = BreakResultView;

    open spec fn view(&self) -> BreakResultView {
        match self {
            BreakResult::Return(v) => BreakResultView::Return(v@),
            BreakResult::Break => BreakResultView::Break,
            BreakResult::Continue => BreakResultView::Continue,
            BreakResult::Fault(f) => BreakResultView::Fault(*f),
            BreakResult::Pending(q) => BreakResultView::Pending(q@),
        }
    }
}

/// A value, or why there is none.
pub type EvalResult = Result<Value, BreakResult>;

/// What an [`EvalResult`] stands for.
pub type EvalResultView = Result<ValueView, BreakResultView>;

/// What `r` stands for.
pub open spec fn view_result(r: EvalResult) -> EvalResultView {
    match r {
        Ok(v) => Ok(v@),
        Err(b) => Err(b@),
    }
}

/// What a result that holds a plain value stands for.
pub open spec fn view_plain<T>(r: Result<T, BreakResult>) -> Result<T, BreakResultView> {
    match r {
        Ok(x) => Ok(x),
        Err(b) => Err(b@),
    }
}

/// What a result that holds a text stands for.
pub open spec fn view_text(r: Result<Vec<u8>, BreakResult>) -> Result<Seq<u8>, BreakResultView> {
    match r {
        Ok(t) => Ok(t@),
        Err(b) => Err(b@),
    }
}

/// The answers of the floating-point unit to the requests of a run, in the order in which
/// the run makes them: those that are numbers, and those that are texts.
#[derive(Debug, PartialEq, Clone)]
pub struct Answers {
    pub numbers: Vec<u64>,
    pub texts: Vec<Vec<u8>>,
}

/// What [`Answers`] stand for.
pub struct AnswersView {
    pub numbers: Seq<u64>,
    pub texts: Seq<Seq<u8>>,
}

impl View for Answers {
    type V = AnswersView;

    open spec fn view(&self) -> AnswersView {
        AnswersView {
            numbers: self.numbers@,
            texts: Seq::new(self.texts@.len(), |i: int| self.texts@[i]@),
        }
    }
}

/// A run's dealings with the world: the answers it was given, how many of them it has
/// used, and what it has written.
pub struct Session<'s> {
    pub answers: &'s Answers,
    pub numbers_used: usize,
    pub texts_used: usize,
    pub output: Vec<u8>,
}

/// What a [`Session`] stands for.
pub struct SessionView {
    pub answers: AnswersView,
    pub numbers_used: nat,
    pub texts_used: nat,
    pub output: Seq<u8>,
}

impl<'s> View for Session<'s> {
    type V = SessionView;

    open spec fn view(&self) -> SessionView {
        SessionView {
            answers: self.answers@,
            numbers_used: self.numbers_used as nat,
            texts_used: self.texts_used as nat,
            output: self.output@,
        }
    }
}

/// The session at the start of a run with `answers`.
pub open spec fn session_start(answers: AnswersView) -> SessionView {
    SessionView { answers, numbers_used: 0, texts_used: 0, output: Seq::empty() }
}

/// The number that answers `request`, taken from the answers not yet used; where none is
/// left the request stays pending.
pub open spec fn ask_number_spec(request: RequestView, s: SessionView) -> (Result<u64, BreakResultView>, SessionView) {
    if s.numbers_used < s.answers.numbers.len() {
        (
            Ok(s.answers.numbers[s.numbers_used as int]),
            SessionView { numbers_used: s.numbers_used + 1, ..s },
        )
    } else {
        (Err(BreakResultView::Pending(request)), s)
    }
}

/// The text that answers `request`, taken from the answers not yet used; where none is left
/// the request stays pending.
pub open spec fn ask_text_spec(request: RequestView, s: SessionView) -> (Result<Seq<u8>, BreakResultView>, SessionView) {
    if s.texts_used < s.answers.texts.len() {
        (
            Ok(s.answers.texts[s.texts_used as int]),
            SessionView { texts_used: s.texts_used + 1, ..s },
        )
    } else {
        (Err(BreakResultView::Pending(request)), s)
    }
}

/// The session after `text` was written.
pub open spec fn write_spec(s: SessionView, text: Seq<u8>) -> SessionView {
    SessionView { output: s.output + text, ..s }
}

impl<'s> Session<'s> {
    /// The session at the start of a run with `answers`.
    pub fn new(answers: &'s Answers) -> (r: Self)
        ensures
            r@ == session_start(answers@),
    {
        Session { answers, numbers_used: 0, texts_used: 0, output: Vec::new() }
    }

    /// Takes the next number among the answers for `request`.
    pub fn ask_number(&mut self, request: Request) -> (r: Result<u64, BreakResult>)
        ensures
            (view_plain(r), final(self)@) == ask_number_spec(request@, old(self)@),
    {
        if self.numbers_used < self.answers.numbers.len() {
            let n = self.answers.numbers[self.numbers_used];
            self.numbers_used = self.numbers_used + 1;
            Ok(n)
        } else {
            Err(BreakResult::Pending(request))
        }
    }

    /// Takes the next text among the answers for `request`.
    pub fn ask_text(&mut self, request: Request) -> (r: Result<Vec<u8>, BreakResult>)
        ensures
            (view_text(r), final(self)@) == ask_text_spec(request@, old(self)@),
    {
        if self.texts_used < self.answers.texts.len() {
            let t = self.answers.texts[self.texts_used].clone();
            self.texts_used = self.texts_used + 1;
            Ok(t)
        } else {
            Err(BreakResult::Pending(request))
        }
    }

    /// Writes `text` to the output.
    pub fn write(&mut self, text: &[u8])
        ensures
            final(self)@ == write_spec(old(self)@, text@),
    {
        crate::text::append(&mut self.output, text);
    }
}

} // verus!
