//! What every block shares: taking a new property snapshot where it differs
//! from the stored one, and rendering an element from a base token, the
//! caller's classes, a list of modifiers and the children.

use vstd::prelude::*;
use yew::Classes;
use crate::classes::{
    compose, composed, extra_tokens, lemma_composed_superset, modifier_views, well_formed, Modifier,
};
use crate::node::{copy_children, Listener, RenderedNode, RenderedNodeView};

verus! {

/// A property snapshot: an immutable value that is compared as a whole.
pub trait Snapshot: Sized {
    /// Structural equality of two snapshots: the same children in the same
    /// order, the same classes in the same order, the same callbacks, and every
    /// other field the same.
    spec fn equal(&self, other: &Self) -> bool;

    /// Whether two snapshots are structurally equal.
    fn same(&self, other: &Self) -> (r: bool)
        ensures
            r == self.equal(other),
    ;
}

/// Replaces the stored snapshot by the next one where the two are not
/// structurally equal, and says whether it did: `true` asks for a render.
pub fn neq_assign<P: Snapshot>(current: &mut P, next: P) -> (r: bool)
    ensures
        r == !old(current).equal(&next),
        r ==> *final(current) == next,
        !r ==> *final(current) == *old(current),
{
    if current.same(&next) {
        false
    } else {
        *current = next;
        true
    }
}

/// The element that a block renders: the given tag, the composed class set and
/// the children as they were supplied; no attributes and no handler.
pub open spec fn element(
    tag: Seq<char>,
    base: Seq<char>,
    extra: Option<Classes>,
    mods: Seq<(bool, Seq<char>)>,
    children: Seq<u64>,
) -> RenderedNodeView {
    RenderedNodeView {
        tag,
        classes: composed(base, extra_tokens(extra), mods),
        children,
        input: None,
        listener: Listener::Inert,
    }
}

/// Renders an element with the given tag, the class set composed of `base`,
/// `extra` and `modifiers`, and the children in the order of `children`. The
/// class set holds the base token and every class of the caller's, each once.
pub fn render_element(
    tag: String,
    base: &str,
    extra: &Option<Classes>,
    modifiers: &Vec<Modifier>,
    children: &Vec<u64>,
) -> (r: RenderedNode)
    ensures
        r@.tag == tag@,
        r@.children == children@,
        r@.input.is_none(),
        r@.listener == Listener::Inert,
        well_formed(base@, modifier_views(modifiers@)) ==> {
            &&& r@ == element(tag@, base@, *extra, modifier_views(modifiers@), children@)
            &&& r@.classes.contains(base@)
            &&& forall|t: Seq<char>| #[trigger]
                extra_tokens(*extra).contains(t) ==> r@.classes.contains(t)
            &&& r@.classes.no_duplicates()
        },
{
    proof {
        lemma_composed_superset(base@, extra_tokens(*extra), modifier_views(modifiers@));
    }
    RenderedNode {
        tag,
        classes: compose(base, extra, modifiers),
        children: copy_children(children),
        input: None,
        listener: Listener::Inert,
    }
}

} // verus!
