//! Scopes: a frame binds variables and functions and lies inside the frame of the caller.
//! Functions are looked up along that chain, variables in the current frame only.

use vstd::prelude::*;
use vstd::string::*;
use crate::ast::{view_names, view_statements, Statement, StatementView};
use crate::table::Table;
use crate::unit::{BinaryMath, UnaryMath};
use crate::value::{Value, ValueView};

verus! {

/// A function that the language has from the start.
#[derive(Clone, Copy, PartialEq, Eq, Debug, Structural)]
pub enum NativeFn {
    /// A function of one number.
    Unary(UnaryMath),
    /// A function of two numbers.
    Binary(BinaryMath),
    /// `print`: writes one value after a label, and ends the line.
    Print,
    /// `puts`: writes each argument, with nothing between or after them.
    Puts,
    /// `dbg`: writes how one value is built, after a label, and ends the line.
    Dbg,
    /// `i64`: converts to an integer.
    ToInteger,
    /// `f64`: converts to a number.
    ToFloat,
    /// `str`: converts to a text.
    ToText,
    /// `is_nan`: the number 1 for a number that is no number, else the number 0.
    IsNan,
}

/// A function that a program declared: the names of its parameters and its body.
#[derive(Clone, Copy, Debug)]
pub struct UserFn<'src> {
    pub args: &'src Vec<Vec<u8>>,
    pub stmts: &'src Vec<Statement>,
}

/// A function that can be called.
#[derive(Clone, Copy, Debug)]
pub enum FnDef<'src> {
    User(UserFn<'src>),
    Native(NativeFn),
}

/// What a [`FnDef`] stands for.
pub enum FnDefView {
    User { args: Seq<Seq<u8>>, stmts: Seq<StatementView> },
    Native(NativeFn),
}

impl<'src> View for FnDef<'src> {
    type V = FnDefView;

    open spec fn view(&self) -> FnDefView {
        match self {
            FnDef::User(code) => FnDefView::User {
                args: view_names(code.args@),
                stmts: view_statements(*code.stmts),
            },
            FnDef::Native(code) => FnDefView::Native(*code),
        }
    }
}

/// What an `Option` of a [`FnDef`] stands for.
pub open spec fn view_fn(f: Option<FnDef<'_>>) -> Option<FnDefView> {
    match f {
        Some(def) => Some(def@),
        None => None,
    }
}

/// The built-in function of one number that computes `f`.
pub fn unary_fn<'a>(f: UnaryMath) -> (r: FnDef<'a>)
    ensures
        r@ == FnDefView::Native(NativeFn::Unary(f)),
{
    FnDef::Native(NativeFn::Unary(f))
}

/// The built-in function of two numbers that computes `f`.
pub fn binary_fn<'a>(f: BinaryMath) -> (r: FnDef<'a>)
    ensures
        r@ == FnDefView::Native(NativeFn::Binary(f)),
{
    FnDef::Native(NativeFn::Binary(f))
}

/// The functions that every program starts with, under their names.
pub open spec fn native_functions() -> Map<Seq<u8>, FnDefView> {
    Map::<Seq<u8>, FnDefView>::empty().insert(
        "sqrt".spec_bytes(),
        FnDefView::Native(NativeFn::Unary(UnaryMath::Sqrt)),
    ).insert("sin".spec_bytes(), FnDefView::Native(NativeFn::Unary(UnaryMath::Sin))).insert(
        "cos".spec_bytes(),
        FnDefView::Native(NativeFn::Unary(UnaryMath::Cos)),
    ).insert("tan".spec_bytes(), FnDefView::Native(NativeFn::Unary(UnaryMath::Tan))).insert(
        "asin".spec_bytes(),
        FnDefView::Native(NativeFn::Unary(UnaryMath::Asin)),
    ).insert("acos".spec_bytes(), FnDefView::Native(NativeFn::Unary(UnaryMath::Acos))).insert(
        "atan".spec_bytes(),
        FnDefView::Native(NativeFn::Unary(UnaryMath::Atan)),
    ).insert("atan2".spec_bytes(), FnDefView::Native(NativeFn::Binary(BinaryMath::Atan2))).insert(
        "pow".spec_bytes(),
        FnDefView::Native(NativeFn::Binary(BinaryMath::Pow)),
    ).insert("exp".spec_bytes(), FnDefView::Native(NativeFn::Unary(UnaryMath::Exp))).insert(
        "log".spec_bytes(),
        FnDefView::Native(NativeFn::Binary(BinaryMath::Log)),
    ).insert("log10".spec_bytes(), FnDefView::Native(NativeFn::Unary(UnaryMath::Log10))).insert(
        "floor".spec_bytes(),
        FnDefView::Native(NativeFn::Unary(UnaryMath::Floor)),
    ).insert("print".spec_bytes(), FnDefView::Native(NativeFn::Print)).insert(
        "puts".spec_bytes(),
        FnDefView::Native(NativeFn::Puts),
    ).insert("dbg".spec_bytes(), FnDefView::Native(NativeFn::Dbg)).insert(
        "i64".spec_bytes(),
        FnDefView::Native(NativeFn::ToInteger),
    ).insert("f64".spec_bytes(), FnDefView::Native(NativeFn::ToFloat)).insert(
        "str".spec_bytes(),
        FnDefView::Native(NativeFn::ToText),
    ).insert("is_nan".spec_bytes(), FnDefView::Native(NativeFn::IsNan))
}

/// A scope: the variables and the functions that it binds, and the scope around it.
pub struct StackFrame<'src> {
    pub vars: Table<Value>,
    pub funcs: Table<FnDef<'src>>,
    pub uplevel: Option<&'src StackFrame<'src>>,
}

/// What a [`StackFrame`] stands for.
pub struct FrameView {
    pub vars: Map<Seq<u8>, ValueView>,
    pub funcs: Map<Seq<u8>, FnDefView>,
    pub uplevel: Option<Box<FrameView>>,
}

/// What `frame` stands for.
pub open spec fn view_frame(frame: StackFrame<'_>) -> FrameView
    decreases frame,
{
    FrameView {
        vars: frame.vars@,
        funcs: frame.funcs@,
        uplevel: match frame.uplevel {
            Some(up) => Some(Box::new(view_frame(*up))),
            None => None,
        },
    }
}

impl<'src> View for StackFrame<'src> {
    type V = FrameView;

    open spec fn view(&self) -> FrameView {
        view_frame(*self)
    }
}

/// The frame that a program starts in.
pub open spec fn top_frame() -> FrameView {
    FrameView { vars: Map::empty(), funcs: native_functions(), uplevel: None }
}

/// A frame that binds nothing, inside `uplevel`.
pub open spec fn push_stack_spec(uplevel: FrameView) -> FrameView {
    FrameView { vars: Map::empty(), funcs: Map::empty(), uplevel: Some(Box::new(uplevel)) }
}

/// The function that `name` means in `frame`: the one that the nearest frame of the chain
/// binds it to.
pub open spec fn get_fn_spec(frame: FrameView, name: Seq<u8>) -> Option<FnDefView>
    decreases frame,
{
    if frame.funcs.dom().contains(name) {
        Some(frame.funcs[name])
    } else {
        match frame.uplevel {
            Some(up) => get_fn_spec(*up, name),
            None => None,
        }
    }
}

impl<'src> StackFrame<'src> {
    /// The frame that a program starts in: no variable, the built-in functions, and no
    /// frame around it.
    pub fn new() -> (r: Self)
        ensures
            r@ == top_frame(),
    {
        let mut funcs: Table<FnDef<'src>> = Table::new();
        funcs.insert("sqrt".as_bytes_vec(), unary_fn(UnaryMath::Sqrt));
        funcs.insert("sin".as_bytes_vec(), unary_fn(UnaryMath::Sin));
        funcs.insert("cos".as_bytes_vec(), unary_fn(UnaryMath::Cos));
        funcs.insert("tan".as_bytes_vec(), unary_fn(UnaryMath::Tan));
        funcs.insert("asin".as_bytes_vec(), unary_fn(UnaryMath::Asin));
        funcs.insert("acos".as_bytes_vec(), unary_fn(UnaryMath::Acos));
        funcs.insert("atan".as_bytes_vec(), unary_fn(UnaryMath::Atan));
        funcs.insert("atan2".as_bytes_vec(), binary_fn(BinaryMath::Atan2));
        funcs.insert("pow".as_bytes_vec(), binary_fn(BinaryMath::Pow));
        funcs.insert("exp".as_bytes_vec(), unary_fn(UnaryMath::Exp));
        funcs.insert("log".as_bytes_vec(), binary_fn(BinaryMath::Log));
        funcs.insert("log10".as_bytes_vec(), unary_fn(UnaryMath::Log10));
        funcs.insert("floor".as_bytes_vec(), unary_fn(UnaryMath::Floor));
        funcs.insert("print".as_bytes_vec(), FnDef::Native(NativeFn::Print));
        funcs.insert("puts".as_bytes_vec(), FnDef::Native(NativeFn::Puts));
        funcs.insert("dbg".as_bytes_vec(), FnDef::Native(NativeFn::Dbg));
        funcs.insert("i64".as_bytes_vec(), FnDef::Native(NativeFn::ToInteger));
        funcs.insert("f64".as_bytes_vec(), FnDef::Native(NativeFn::ToFloat));
        funcs.insert("str".as_bytes_vec(), FnDef::Native(NativeFn::ToText));
        funcs.insert("is_nan".as_bytes_vec(), FnDef::Native(NativeFn::IsNan));
        StackFrame { vars: Table::new(), funcs, uplevel: None }
    }

    /// A frame that binds nothing, inside `uplevel`.
    pub fn push_stack(uplevel: &'src Self) -> (r: Self)
        ensures
            r@ == push_stack_spec(uplevel@),
    {
        StackFrame { vars: Table::new(), funcs: Table::new(), uplevel: Some(uplevel) }
    }

    /// The function that `name` means here.
    pub fn get_fn(&self, name: &[u8]) -> (r: Option<FnDef<'src>>)
        ensures
            view_fn(r) == get_fn_spec(self@, name@),
        decreases self,
    {
        match self.funcs.get(name) {
            Some(func) => Some(*func),
            None => match self.uplevel {
                Some(frame) => frame.get_fn(name),
                None => None,
            },
        }
    }
}

} // verus!
