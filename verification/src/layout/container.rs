//! A container that centres its content horizontally.

use vstd::prelude::*;
use yew::Classes;
use crate::classes::{
    enabled, extra_tokens, lemma_modifier_toggle, modifier_views, Modifier,
};
use crate::component::{element, neq_assign, render_element, Snapshot};
use crate::node::{
    classes_view, same_children, same_classes, RenderedNode, RenderedNodeView,
};

verus! {

/// The properties of a container.
pub struct ContainerProps {
    /// The child nodes, in rendering order.
    pub children: Vec<u64>,
    /// Classes that the caller adds.
    pub classes: Option<Classes>,
    /// Add a `32px` margin to the left and right sides of the container.
    pub fluid: bool,
}

pub struct ContainerPropsView {
    pub children: Seq<u64>,
    pub classes: Option<Seq<Seq<char>>>,
    pub fluid: bool,
}

impl View for ContainerProps {
    type V = ContainerPropsView;

    open spec fn view(&self) -> ContainerPropsView {
        ContainerPropsView {
            children: self.children@,
            classes: classes_view(self.classes),
            fluid: self.fluid,
        }
    }
}

impl Default for ContainerProps {
    /// No children, no classes of the caller's and `fluid` off.
    fn default() -> (r: Self)
        ensures
            r@ == (ContainerPropsView {
                children: Seq::empty(),
                classes: None,
                fluid: false,
            }),
    {
        ContainerProps {
            children: Vec::new(),
            classes: None,
            fluid: false,
        }
    }
}

impl Snapshot for ContainerProps {
    open spec fn equal(&self, other: &Self) -> bool {
        self@ == other@
    }

    fn same(&self, other: &Self) -> (r: bool) {
        same_children(&self.children, &other.children)
            && same_classes(&self.classes, &other.classes)
            && self.fluid == other.fluid
    }
}

/// A simple container to center your content horizontally.
pub struct Container {
    props: ContainerProps,
}

impl Container {
    /// The property snapshot that the block holds, in contracts.
    pub closed spec fn props(&self) -> ContainerProps {
        self.props
    }

    /// What a snapshot renders to: a `div` with the class set `container`, the caller's classes
    /// and, where `fluid` is set, `is-fluid`.
    pub open spec fn rendered(p: ContainerProps) -> RenderedNodeView {
        element("div"@, "container"@, p.classes, seq![(p.fluid, "is-fluid"@)], p.children@)
    }

    /// Stores the initial snapshot; nothing is rendered yet.
    pub fn create(props: ContainerProps) -> (r: Self)
        ensures
            r.props() == props,
    {
        Container { props }
    }

    /// The snapshot that the block holds.
    pub fn snapshot(&self) -> (r: &ContainerProps)
        ensures
            *r == self.props(),
    {
        &self.props
    }

    /// The block has no message of its own: the snapshot stays as it is, and no
    /// render is asked for.
    pub fn update(&mut self, _msg: ()) -> (r: bool)
        ensures
            !r,
            final(self).props() == old(self).props(),
    {
        false
    }

    /// Takes the next snapshot where it is not structurally equal to the stored
    /// one, and says whether it did: `true` asks for a render.
    pub fn changed(&mut self, next: ContainerProps) -> (r: bool)
        ensures
            r == (old(self).props()@ != next@),
            r ==> final(self).props() == next,
            !r ==> final(self).props() == old(self).props(),
    {
        neq_assign(&mut self.props, next)
    }

    /// Renders the stored snapshot.
    pub fn view(&self) -> (r: RenderedNode)
        ensures
            r@ == Self::rendered(self.props()),
    {
        let mut modifiers: Vec<Modifier> = Vec::new();
        modifiers.push(Modifier { condition: self.props.fluid, token: "is-fluid" });
        proof {
            reveal_strlit("container");
            reveal_strlit("is-fluid");
            assert(modifier_views(modifiers@) =~= seq![(self.props.fluid, "is-fluid"@)]);
        }
        render_element(
            "div".to_owned(),
            "container",
            &self.props.classes,
            &modifiers,
            &self.props.children,
        )
    }

    /// Switching `fluid` on or off changes the presence of `is-fluid` in the
    /// rendered class set and nothing else. Of two snapshots that differ in
    /// `fluid` alone, the one with it on renders the token; the one with it off
    /// renders it only where the caller's classes hold it; every other token
    /// is rendered by both or by neither, and tag and children are the same.
    pub proof fn lemma_fluid_toggles(on: ContainerProps, off: ContainerProps)
        requires
            on.fluid,
            !off.fluid,
            on.classes == off.classes,
            on.children == off.children,
        ensures
            Self::rendered(on).classes.contains("is-fluid"@),
            Self::rendered(off).classes.contains("is-fluid"@) <==> extra_tokens(off.classes).contains(
                "is-fluid"@,
            ),
            forall|t: Seq<char>|
                t != "is-fluid"@ ==> (#[trigger] Self::rendered(on).classes.contains(t)
                    <==> Self::rendered(off).classes.contains(t)),
            Self::rendered(on).tag == Self::rendered(off).tag,
            Self::rendered(on).children == Self::rendered(off).children,
    {
        reveal_strlit("container");
        reveal_strlit("is-fluid");
        let with = seq![(true, "is-fluid"@)];
        let without = seq![(false, "is-fluid"@)];
        lemma_modifier_toggle("container"@, extra_tokens(on.classes), with, without, 0);
        assert(!enabled(without, "is-fluid"@));
        assert("container"@.len() != "is-fluid"@.len());
    }
}

} // verus!
