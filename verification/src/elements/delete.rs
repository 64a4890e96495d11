//! The delete cross.

use vstd::prelude::*;
use yew::Classes;
use crate::classes::Modifier;
use crate::component::{element, neq_assign, render_element, Snapshot};
use crate::node::{
    classes_view, same_callback, same_children, same_classes, Listener, RenderedNode, RenderedNodeView,
};

verus! {

/// The properties of a delete cross.
pub struct DeleteProps {
    /// The child nodes, in rendering order.
    pub children: Vec<u64>,
    /// Classes that the caller adds.
    pub classes: Option<Classes>,
    /// The HTML tag to use for this component.
    pub tag: String,
    /// The click handler of this component: the caller's handle of it, or `None` for the inert callback.
    pub onclick: Option<u64>,
}

pub struct DeletePropsView {
    pub children: Seq<u64>,
    pub classes: Option<Seq<Seq<char>>>,
    pub tag: Seq<char>,
    pub onclick: Option<u64>,
}

impl View for DeleteProps {
    type V = DeletePropsView;

    open spec fn view(&self) -> DeletePropsView {
        DeletePropsView {
            children: self.children@,
            classes: classes_view(self.classes),
            tag: self.tag@,
            onclick: self.onclick,
        }
    }
}

impl Default for DeleteProps {
    /// No children, no classes of the caller's, the tag `button` and the inert click handler.
    fn default() -> (r: Self)
        ensures
            r@ == (DeletePropsView {
                children: Seq::empty(),
                classes: None,
                tag: "button"@,
                onclick: None,
            }),
    {
        DeleteProps {
            children: Vec::new(),
            classes: None,
            tag: "button".to_owned(),
            onclick: None,
        }
    }
}

impl Snapshot for DeleteProps {
    open spec fn equal(&self, other: &Self) -> bool {
        self@ == other@
    }

    fn same(&self, other: &Self) -> (r: bool) {
        same_children(&self.children, &other.children)
            && same_classes(&self.classes, &other.classes)
            && self.tag == other.tag
            && same_callback(&self.onclick, &other.onclick)
    }
}

/// A versatile delete cross.
pub struct Delete {
    props: DeleteProps,
}

impl Delete {
    /// The property snapshot that the block holds, in contracts.
    pub closed spec fn props(&self) -> DeleteProps {
        self.props
    }

    /// What a snapshot renders to: an element with the caller's tag, the class `delete` and the
    /// caller's classes, whose clicks go to the caller's handler.
    pub open spec fn rendered(p: DeleteProps) -> RenderedNodeView {
        RenderedNodeView {
            listener: Listener::Click { callback: p.onclick },
            ..element(p.tag@, "delete"@, p.classes, Seq::empty(), p.children@)
        }
    }

    /// Stores the initial snapshot; nothing is rendered yet.
    pub fn create(props: DeleteProps) -> (r: Self)
        ensures
            r.props() == props,
    {
        Delete { props }
    }

    /// The snapshot that the block holds.
    pub fn snapshot(&self) -> (r: &DeleteProps)
        ensures
            *r == self.props(),
    {
        &self.props
    }

    /// The block has no message of its own: the snapshot stays as it is, and no
    /// render is asked for.
    pub fn update(&mut self, _msg: ()) -> (r: bool)
        ensures
            !r,
            final(self).props() == old(self).props(),
    {
        false
    }

    /// Takes the next snapshot where it is not structurally equal to the stored
    /// one, and says whether it did: `true` asks for a render.
    pub fn changed(&mut self, next: DeleteProps) -> (r: bool)
        ensures
            r == (old(self).props()@ != next@),
            r ==> final(self).props() == next,
            !r ==> final(self).props() == old(self).props(),
    {
        neq_assign(&mut self.props, next)
    }

    /// Renders the stored snapshot.
    pub fn view(&self) -> (r: RenderedNode)
        ensures
            r@ == Self::rendered(self.props()),
            r@.tag == self.props().tag@,
    {
        let modifiers: Vec<Modifier> = Vec::new();
        proof {
            reveal_strlit("delete");
        }
        let mut node = render_element(
            self.props.tag.clone(),
            "delete",
            &self.props.classes,
            &modifiers,
            &self.props.children,
        );
        node.listener = Listener::Click { callback: self.props.onclick };
        node
    }
}

} // verus!
