//! The box.

use vstd::prelude::*;
use yew::Classes;
use crate::classes::Modifier;
use crate::component::{element, neq_assign, render_element, Snapshot};
use crate::node::{
    classes_view, same_children, same_classes, RenderedNode, RenderedNodeView,
};

verus! {

/// The properties of a box.
pub struct BoxProps {
    /// The child nodes, in rendering order.
    pub children: Vec<u64>,
    /// Classes that the caller adds.
    pub classes: Option<Classes>,
}

pub struct BoxPropsView {
    pub children: Seq<u64>,
    pub classes: Option<Seq<Seq<char>>>,
}

impl View for BoxProps {
    type V = BoxPropsView;

    open spec fn view(&self) -> BoxPropsView {
        BoxPropsView {
            children: self.children@,
            classes: classes_view(self.classes),
        }
    }
}

impl Default for BoxProps {
    /// No children and no classes of the caller's.
    fn default() -> (r: Self)
        ensures
            r@ == (BoxPropsView {
                children: Seq::empty(),
                classes: None,
            }),
    {
        BoxProps {
            children: Vec::new(),
            classes: None,
        }
    }
}

impl Snapshot for BoxProps {
    open spec fn equal(&self, other: &Self) -> bool {
        self@ == other@
    }

    fn same(&self, other: &Self) -> (r: bool) {
        same_children(&self.children, &other.children)
            && same_classes(&self.classes, &other.classes)
    }
}

/// A white box to contain other elements.
pub struct Box {
    props: BoxProps,
}

impl Box {
    /// The property snapshot that the block holds, in contracts.
    pub closed spec fn props(&self) -> BoxProps {
        self.props
    }

    /// What a snapshot renders to: a `div` with the class `box` and the caller's classes.
    pub open spec fn rendered(p: BoxProps) -> RenderedNodeView {
        element("div"@, "box"@, p.classes, Seq::empty(), p.children@)
    }

    /// Stores the initial snapshot; nothing is rendered yet.
    pub fn create(props: BoxProps) -> (r: Self)
        ensures
            r.props() == props,
    {
        Box { props }
    }

    /// The snapshot that the block holds.
    pub fn snapshot(&self) -> (r: &BoxProps)
        ensures
            *r == self.props(),
    {
        &self.props
    }

    /// The block has no message of its own: the snapshot stays as it is, and no
    /// render is asked for.
    pub fn update(&mut self, _msg: ()) -> (r: bool)
        ensures
            !r,
            final(self).props() == old(self).props(),
    {
        false
    }

    /// Takes the next snapshot where it is not structurally equal to the stored
    /// one, and says whether it did: `true` asks for a render.
    pub fn change(&mut self, next: BoxProps) -> (r: bool)
        ensures
            r == (old(self).props()@ != next@),
            r ==> final(self).props() == next,
            !r ==> final(self).props() == old(self).props(),
    {
        neq_assign(&mut self.props, next)
    }

    /// Renders the stored snapshot.
    pub fn view(&self) -> (r: RenderedNode)
        ensures
            r@ == Self::rendered(self.props()),
    {
        let modifiers: Vec<Modifier> = Vec::new();
        proof {
            reveal_strlit("box");
        }
        render_element(
            "div".to_owned(),
            "box",
            &self.props.classes,
            &modifiers,
            &self.props.children,
        )
    }
}

} // verus!
