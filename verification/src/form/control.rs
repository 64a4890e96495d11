//! The wrapper of a form control.

use vstd::prelude::*;
use yew::Classes;
use crate::classes::{
    enabled, extra_tokens, lemma_modifier_toggle, modifier_views, Modifier,
};
use crate::component::{element, neq_assign, render_element, Snapshot};
use crate::node::{
    classes_view, same_children, same_classes, RenderedNode, RenderedNodeView,
};

verus! {

/// The properties of a form-control wrapper.
pub struct ControlProps {
    /// The child nodes, in rendering order.
    pub children: Vec<u64>,
    /// Classes that the caller adds.
    pub classes: Option<Classes>,
    /// The HTML tag to use for this component.
    pub tag: String,
    /// A modifier to have the controlled element fill up the remaining space.
    pub expanded: bool,
}

pub struct ControlPropsView {
    pub children: Seq<u64>,
    pub classes: Option<Seq<Seq<char>>>,
    pub tag: Seq<char>,
    pub expanded: bool,
}

impl View for ControlProps {
    type V = ControlPropsView;

    open spec fn view(&self) -> ControlPropsView {
        ControlPropsView {
            children: self.children@,
            classes: classes_view(self.classes),
            tag: self.tag@,
            expanded: self.expanded,
        }
    }
}

impl Default for ControlProps {
    /// No children, no classes of the caller's, the tag `div` and `expanded` off.
    fn default() -> (r: Self)
        ensures
            r@ == (ControlPropsView {
                children: Seq::empty(),
                classes: None,
                tag: "div"@,
                expanded: false,
            }),
    {
        ControlProps {
            children: Vec::new(),
            classes: None,
            tag: "div".to_owned(),
            expanded: false,
        }
    }
}

impl Snapshot for ControlProps {
    open spec fn equal(&self, other: &Self) -> bool {
        self@ == other@
    }

    fn same(&self, other: &Self) -> (r: bool) {
        same_children(&self.children, &other.children)
            && same_classes(&self.classes, &other.classes)
            && self.tag == other.tag
            && self.expanded == other.expanded
    }
}

/// A container with which you can wrap the form controls.
pub struct Control {
    props: ControlProps,
}

impl Control {
    /// The property snapshot that the block holds, in contracts.
    pub closed spec fn props(&self) -> ControlProps {
        self.props
    }

    /// What a snapshot renders to: an element with the caller's tag and the class set `control`,
    /// the caller's classes and, where `expanded` is set, `is-expanded`.
    pub open spec fn rendered(p: ControlProps) -> RenderedNodeView {
        element(p.tag@, "control"@, p.classes, seq![(p.expanded, "is-expanded"@)], p.children@)
    }

    /// Stores the initial snapshot; nothing is rendered yet.
    pub fn create(props: ControlProps) -> (r: Self)
        ensures
            r.props() == props,
    {
        Control { props }
    }

    /// The snapshot that the block holds.
    pub fn snapshot(&self) -> (r: &ControlProps)
        ensures
            *r == self.props(),
    {
        &self.props
    }

    /// The block has no message of its own: the snapshot stays as it is, and no
    /// render is asked for.
    pub fn update(&mut self, _msg: ()) -> (r: bool)
        ensures
            !r,
            final(self).props() == old(self).props(),
    {
        false
    }

    /// Takes the next snapshot where it is not structurally equal to the stored
    /// one, and says whether it did: `true` asks for a render.
    pub fn changed(&mut self, next: ControlProps) -> (r: bool)
        ensures
            r == (old(self).props()@ != next@),
            r ==> final(self).props() == next,
            !r ==> final(self).props() == old(self).props(),
    {
        neq_assign(&mut self.props, next)
    }

    /// Renders the stored snapshot.
    pub fn view(&self) -> (r: RenderedNode)
        ensures
            r@ == Self::rendered(self.props()),
            r@.tag == self.props().tag@,
    {
        let mut modifiers: Vec<Modifier> = Vec::new();
        modifiers.push(Modifier { condition: self.props.expanded, token: "is-expanded" });
        proof {
            reveal_strlit("control");
            reveal_strlit("is-expanded");
            assert(modifier_views(modifiers@) =~= seq![(self.props.expanded, "is-expanded"@)]);
        }
        render_element(
            self.props.tag.clone(),
            "control",
            &self.props.classes,
            &modifiers,
            &self.props.children,
        )
    }

    /// Switching `expanded` on or off changes the presence of `is-expanded` in the
    /// rendered class set and nothing else. Of two snapshots that differ in
    /// `expanded` alone, the one with it on renders the token; the one with it off
    /// renders it only where the caller's classes hold it; every other token
    /// is rendered by both or by neither, and tag and children are the same.
    pub proof fn lemma_expanded_toggles(on: ControlProps, off: ControlProps)
        requires
            on.expanded,
            !off.expanded,
            on.classes == off.classes,
            on.children == off.children,
            on.tag == off.tag,
        ensures
            Self::rendered(on).classes.contains("is-expanded"@),
            Self::rendered(off).classes.contains("is-expanded"@) <==> extra_tokens(off.classes).contains(
                "is-expanded"@,
            ),
            forall|t: Seq<char>|
                t != "is-expanded"@ ==> (#[trigger] Self::rendered(on).classes.contains(t)
                    <==> Self::rendered(off).classes.contains(t)),
            Self::rendered(on).tag == Self::rendered(off).tag,
            Self::rendered(on).children == Self::rendered(off).children,
    {
        reveal_strlit("control");
        reveal_strlit("is-expanded");
        let with = seq![(true, "is-expanded"@)];
        let without = seq![(false, "is-expanded"@)];
        lemma_modifier_toggle("control"@, extra_tokens(on.classes), with, without, 0);
        assert(!enabled(without, "is-expanded"@));
        assert("control"@.len() != "is-expanded"@.len());
    }
}

} // verus!
