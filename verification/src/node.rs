//! The markup that a block renders, and the plain values that stand for what
//! the caller owns: child nodes and callbacks are known by the caller's handles.

use vstd::prelude::*;
use yew::Classes;
use crate::classes::{class_tokens, classes_eq};

verus! {

/// The event handler wired to a rendered element.
#[derive(Clone, Copy, Debug, PartialEq, Eq, Structural)]
pub enum Listener {
    /// No handler.
    Inert,
    /// A click goes straight to the caller's callback; `None` is the inert
    /// callback, which does nothing.
    Click { callback: Option<u64> },
    /// A change of the element's value is sent to the block that rendered it,
    /// as a message holding the raw value.
    Input,
}

/// The attributes of a native input element.
pub struct InputAttributes {
    pub name: String,
    pub value: String,
    pub kind: String,
    pub placeholder: String,
    pub disabled: bool,
    pub readonly: bool,
}

pub struct InputAttributesView {
    pub name: Seq<char>,
    pub value: Seq<char>,
    pub kind: Seq<char>,
    pub placeholder: Seq<char>,
    pub disabled: bool,
    pub readonly: bool,
}

impl View for InputAttributes {
    type V = InputAttributesView;

    open spec fn view(&self) -> InputAttributesView {
        InputAttributesView {
            name: self.name@,
            value: self.value@,
            kind: self.kind@,
            placeholder: self.placeholder@,
            disabled: self.disabled,
            readonly: self.readonly,
        }
    }
}

/// The markup tree of one render pass: a tag, the composed class set, the
/// children in rendering order, and what else the element carries.
pub struct RenderedNode {
    pub tag: String,
    pub classes: Classes,
    pub children: Vec<u64>,
    pub input: Option<InputAttributes>,
    pub listener: Listener,
}

pub struct RenderedNodeView {
    pub tag: Seq<char>,
    pub classes: Seq<Seq<char>>,
    pub children: Seq<u64>,
    pub input: Option<InputAttributesView>,
    pub listener: Listener,
}

impl View for RenderedNode {
    type V = RenderedNodeView;

    open spec fn view(&self) -> RenderedNodeView {
        RenderedNodeView {
            tag: self.tag@,
            classes: class_tokens(self.classes),
            children: self.children@,
            input: match self.input {
                Some(a) => Some(a@),
                None => None,
            },
            listener: self.listener,
        }
    }
}

/// What a block asks of its host after a message.
pub enum Effect {
    /// Nothing.
    Nothing,
    /// Invoke the caller's callback once, with this value.
    Emit { callback: u64, value: String },
}

pub enum EffectView {
    Nothing,
    Emit { callback: u64, value: Seq<char> },
}

impl View for Effect {
    type V = EffectView;

    open spec fn view(&self) -> EffectView {
        match self {
            Effect::Nothing => EffectView::Nothing,
            Effect::Emit { callback, value } => EffectView::Emit {
                callback: *callback,
                value: value@,
            },
        }
    }
}

/// The tokens of an optional class set, where it is present.
pub open spec fn classes_view(c: Option<Classes>) -> Option<Seq<Seq<char>>> {
    match c {
        Some(c) => Some(class_tokens(c)),
        None => None,
    }
}

/// Whether two lists of child handles are the same list.
pub fn same_children(a: &Vec<u64>, b: &Vec<u64>) -> (r: bool)
    ensures
        r == (a@ == b@),
{
    if a.len() != b.len() {
        return false;
    }
    let mut i: usize = 0;
    while i < a.len()
        invariant
            a.len() == b.len(),
            0 <= i <= a.len(),
            forall|j: int| 0 <= j < i ==> a[j] == b[j],
        decreases a.len() - i,
    {
        if a[i] != b[i] {
            return false;
        }
        i += 1;
    }
    assert(a@ =~= b@);
    true
}

/// A copy of a list of child handles, in the same order.
pub fn copy_children(children: &Vec<u64>) -> (r: Vec<u64>)
    ensures
        r@ == children@,
{
    let mut out: Vec<u64> = Vec::new();
    let mut i: usize = 0;
    while i < children.len()
        invariant
            0 <= i <= children.len(),
            out@ == children@.take(i as int),
        decreases children.len() - i,
    {
        out.push(children[i]);
        assert(children@.take(i + 1) =~= children@.take(i as int).push(children[i as int]));
        i += 1;
    }
    assert(children@.take(i as int) =~= children@);
    out
}

/// Whether two optional class sets are both absent, or both present with the
/// same tokens in the same order.
pub fn same_classes(a: &Option<Classes>, b: &Option<Classes>) -> (r: bool)
    ensures
        r == (classes_view(*a) == classes_view(*b)),
{
    match (a, b) {
        (Some(x), Some(y)) => classes_eq(x, y),
        (None, None) => true,
        _ => false,
    }
}

/// Whether two callbacks are the same callback: both inert, or the same handle.
pub fn same_callback(a: &Option<u64>, b: &Option<u64>) -> (r: bool)
    ensures
        r == (*a == *b),
{
    match (a, b) {
        (Some(x), Some(y)) => *x == *y,
        (None, None) => true,
        _ => false,
    }
}

} // verus!
