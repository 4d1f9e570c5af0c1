//! The values of the language and the faults of a run.

use vstd::prelude::*;

verus! {

/// Why a run stopped before its end.
#[derive(Clone, Copy, PartialEq, Eq, Debug, Structural)]
pub enum Fault {
    /// A name was read that the current frame does not bind.
    UndefinedVariable,
    /// A function was called that no frame of the chain defines.
    UndefinedFunction,
    /// A name was assigned to that the current frame does not bind.
    UndeclaredAssignment,
    /// An operator or a conversion met operands that it does not take.
    TypeMismatch,
    /// An array was read outside its bounds.
    IndexOutOfBounds,
    /// A built-in function got fewer arguments than it needs.
    MissingArgument,
    /// A `break` or a `continue` reached the body of a function.
    IllegalControlFlow,
    /// An integer was divided by zero, or the least integer by -1.
    IntegerDivision,
    /// Calls were nested deeper than the run allows.
    DepthExceeded,
}

/// A value of the language.
#[derive(Debug, PartialEq)]
pub enum Value {
    /// A binary64 number, held as its 64 bits.
    Float(u64),
    Integer(i64),
    Text(Vec<u8>),
    Array(Vec<Value>),
}

/// What a [`Value`] stands for.
pub enum ValueView {
    Float(u64),
    Integer(i64),
    Text(Seq<u8>),
    Array(Seq<ValueView>),
}

/// What `v` stands for.
pub open spec fn view_value(v: Value) -> ValueView
    decreases v,
{
    match v {
        Value::Float(bits) => ValueView::Float(bits),
        Value::Integer(n) => ValueView::Integer(n),
        Value::Text(text) => ValueView::Text(text@),
        Value::Array(items) => ValueView::Array(
            Seq::new(
                items@.len(),
                |i: int|
                    if 0 <= i < items@.len() {
                        view_value(items@[i])
                    } else {
                        ValueView::Integer(0)
                    },
            ),
        ),
    }
}

impl View for Value {
    type V = ValueView;

    open spec fn view(&self) -> ValueView {
        view_value(*self)
    }
}

/// The views of the values of `items`, in their order.
pub open spec fn view_values(items: Seq<Value>) -> Seq<ValueView> {
    Seq::new(items.len(), |i: int| items[i]@)
}

/// The view of an array is the views of its items.
pub proof fn lemma_view_array(v: Value)
    requires
        v is Array,
    ensures
        v@ == ValueView::Array(view_values(v->Array_0@)),
{
    assert(v@->Array_0 =~= view_values(v->Array_0@));
}

impl Value {
    /// A copy of the value.
    pub fn copy(&self) -> (r: Value)
        ensures
            r@ == self@,
        decreases self,
    {
        match self {
            Value::Float(bits) => Value::Float(*bits),
            Value::Integer(n) => Value::Integer(*n),
            Value::Text(text) => Value::Text(text.clone()),
            Value::Array(items) => {
                let r = Value::Array(copy_values(items));
                proof {
                    lemma_view_array(*self);
                    lemma_view_array(r);
                    assert(view_values(items@) =~= view_values(r->Array_0@));
                }
                r
            },
        }
    }
}

impl Clone for Value {
    fn clone(&self) -> (r: Self)
        ensures
            r@ == self@,
    {
        self.copy()
    }
}

/// Copies of the values of `items`, in their order.
pub fn copy_values(items: &Vec<Value>) -> (r: Vec<Value>)
    ensures
        view_values(r@) == view_values(items@),
    decreases items,
{
    let mut out: Vec<Value> = Vec::new();
    let mut i: usize = 0;
    while i < items.len()
        invariant
            i <= items.len(),
            out.len() == i,
            forall|j: int| 0 <= j < i ==> out@[j]@ == items@[j]@,
            forall|j: int| 0 <= j < items.len() ==> decreases_to!(items => items@[j]),
        decreases items.len() - i,
    {
        out.push(items[i].copy());
        i += 1;
    }
    assert(view_values(out@) =~= view_values(items@));
    out
}

} // verus!
