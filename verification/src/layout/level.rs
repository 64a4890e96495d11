//! The level and its parts.

use vstd::prelude::*;
use yew::Classes;
use crate::classes::Modifier;
use crate::component::{element, neq_assign, render_element, Snapshot};
use crate::node::{
    classes_view, same_children, same_classes, RenderedNode, RenderedNodeView,
};

verus! {

/// The properties of `Level`.
pub struct LevelProps {
    /// The child nodes, in rendering order.
    pub children: Vec<u64>,
    /// Classes that the caller adds.
    pub classes: Option<Classes>,
    /// The HTML tag to use for this component.
    pub tag: String,
}

pub struct LevelPropsView {
    pub children: Seq<u64>,
    pub classes: Option<Seq<Seq<char>>>,
    pub tag: Seq<char>,
}

impl View for LevelProps {
    type V = LevelPropsView;

    open spec fn view(&self) -> LevelPropsView {
        LevelPropsView {
            children: self.children@,
            classes: classes_view(self.classes),
            tag: self.tag@,
        }
    }
}

impl Default for LevelProps {
    /// No children, no classes of the caller's and the tag `nav`.
    fn default() -> (r: Self)
        ensures
            r@ == (LevelPropsView {
                children: Seq::empty(),
                classes: None,
                tag: "nav"@,
            }),
    {
        LevelProps {
            children: Vec::new(),
            classes: None,
            tag: "nav".to_owned(),
        }
    }
}

impl Snapshot for LevelProps {
    open spec fn equal(&self, other: &Self) -> bool {
        self@ == other@
    }

    fn same(&self, other: &Self) -> (r: bool) {
        same_children(&self.children, &other.children)
            && same_classes(&self.classes, &other.classes)
            && self.tag == other.tag
    }
}

/// A multi-purpose horizontal level, which can contain almost any other element.
pub struct Level {
    props: LevelProps,
}

impl Level {
    /// The property snapshot that the block holds, in contracts.
    pub closed spec fn props(&self) -> LevelProps {
        self.props
    }

    /// What a snapshot renders to: an element with the caller's tag, the class `level` and the
    /// caller's classes.
    pub open spec fn rendered(p: LevelProps) -> RenderedNodeView {
        element(p.tag@, "level"@, p.classes, Seq::empty(), p.children@)
    }

    /// Stores the initial snapshot; nothing is rendered yet.
    pub fn create(props: LevelProps) -> (r: Self)
        ensures
            r.props() == props,
    {
        Level { props }
    }

    /// The snapshot that the block holds.
    pub fn snapshot(&self) -> (r: &LevelProps)
        ensures
            *r == self.props(),
    {
        &self.props
    }

    /// The block has no message of its own: the snapshot stays as it is, and no
    /// render is asked for.
    pub fn update(&mut self, _msg: ()) -> (r: bool)
        ensures
            !r,
            final(self).props() == old(self).props(),
    {
        false
    }

    /// Takes the next snapshot where it is not structurally equal to the stored
    /// one, and says whether it did: `true` asks for a render.
    pub fn changed(&mut self, next: LevelProps) -> (r: bool)
        ensures
            r == (old(self).props()@ != next@),
            r ==> final(self).props() == next,
            !r ==> final(self).props() == old(self).props(),
    {
        neq_assign(&mut self.props, next)
    }

    /// Renders the stored snapshot.
    pub fn view(&self) -> (r: RenderedNode)
        ensures
            r@ == Self::rendered(self.props()),
            r@.tag == self.props().tag@,
    {
        let modifiers: Vec<Modifier> = Vec::new();
        proof {
            reveal_strlit("level");
        }
        render_element(
            self.props.tag.clone(),
            "level",
            &self.props.classes,
            &modifiers,
            &self.props.children,
        )
    }
}

/// The properties of `LevelLeft`.
pub struct LevelLeftProps {
    /// The child nodes, in rendering order.
    pub children: Vec<u64>,
    /// Classes that the caller adds.
    pub classes: Option<Classes>,
    /// The HTML tag to use for this component.
    pub tag: String,
}

pub struct LevelLeftPropsView {
    pub children: Seq<u64>,
    pub classes: Option<Seq<Seq<char>>>,
    pub tag: Seq<char>,
}

impl View for LevelLeftProps {
    type V = LevelLeftPropsView;

    open spec fn view(&self) -> LevelLeftPropsView {
        LevelLeftPropsView {
            children: self.children@,
            classes: classes_view(self.classes),
            tag: self.tag@,
        }
    }
}

impl Default for LevelLeftProps {
    /// No children, no classes of the caller's and the tag `div`.
    fn default() -> (r: Self)
        ensures
            r@ == (LevelLeftPropsView {
                children: Seq::empty(),
                classes: None,
                tag: "div"@,
            }),
    {
        LevelLeftProps {
            children: Vec::new(),
            classes: None,
            tag: "div".to_owned(),
        }
    }
}

impl Snapshot for LevelLeftProps {
    open spec fn equal(&self, other: &Self) -> bool {
        self@ == other@
    }

    fn same(&self, other: &Self) -> (r: bool) {
        same_children(&self.children, &other.children)
            && same_classes(&self.classes, &other.classes)
            && self.tag == other.tag
    }
}

/// A container for level elements to be grouped to the left of the container.
pub struct LevelLeft {
    props: LevelLeftProps,
}

impl LevelLeft {
    /// The property snapshot that the block holds, in contracts.
    pub closed spec fn props(&self) -> LevelLeftProps {
        self.props
    }

    /// What a snapshot renders to: an element with the caller's tag, the class `level-left` and the
    /// caller's classes.
    pub open spec fn rendered(p: LevelLeftProps) -> RenderedNodeView {
        element(p.tag@, "level-left"@, p.classes, Seq::empty(), p.children@)
    }

    /// Stores the initial snapshot; nothing is rendered yet.
    pub fn create(props: LevelLeftProps) -> (r: Self)
        ensures
            r.props() == props,
    {
        LevelLeft { props }
    }

    /// The snapshot that the block holds.
    pub fn snapshot(&self) -> (r: &LevelLeftProps)
        ensures
            *r == self.props(),
    {
        &self.props
    }

    /// The block has no message of its own: the snapshot stays as it is, and no
    /// render is asked for.
    pub fn update(&mut self, _msg: ()) -> (r: bool)
        ensures
            !r,
            final(self).props() == old(self).props(),
    {
        false
    }

    /// Takes the next snapshot where it is not structurally equal to the stored
    /// one, and says whether it did: `true` asks for a render.
    pub fn changed(&mut self, next: LevelLeftProps) -> (r: bool)
        ensures
            r == (old(self).props()@ != next@),
            r ==> final(self).props() == next,
            !r ==> final(self).props() == old(self).props(),
    {
        neq_assign(&mut self.props, next)
    }

    /// Renders the stored snapshot.
    pub fn view(&self) -> (r: RenderedNode)
        ensures
            r@ == Self::rendered(self.props()),
            r@.tag == self.props().tag@,
    {
        let modifiers: Vec<Modifier> = Vec::new();
        proof {
            reveal_strlit("level-left");
        }
        render_element(
            self.props.tag.clone(),
            "level-left",
            &self.props.classes,
            &modifiers,
            &self.props.children,
        )
    }
}

/// The properties of `LevelRight`.
pub struct LevelRightProps {
    /// The child nodes, in rendering order.
    pub children: Vec<u64>,
    /// Classes that the caller adds.
    pub classes: Option<Classes>,
    /// The HTML tag to use for this component.
    pub tag: String,
}

pub struct LevelRightPropsView {
    pub children: Seq<u64>,
    pub classes: Option<Seq<Seq<char>>>,
    pub tag: Seq<char>,
}

impl View for LevelRightProps {
    type V = LevelRightPropsView;

    open spec fn view(&self) -> LevelRightPropsView {
        LevelRightPropsView {
            children: self.children@,
            classes: classes_view(self.classes),
            tag: self.tag@,
        }
    }
}

impl Default for LevelRightProps {
    /// No children, no classes of the caller's and the tag `div`.
    fn default() -> (r: Self)
        ensures
            r@ == (LevelRightPropsView {
                children: Seq::empty(),
                classes: None,
                tag: "div"@,
            }),
    {
        LevelRightProps {
            children: Vec::new(),
            classes: None,
            tag: "div".to_owned(),
        }
    }
}

impl Snapshot for LevelRightProps {
    open spec fn equal(&self, other: &Self) -> bool {
        self@ == other@
    }

    fn same(&self, other: &Self) -> (r: bool) {
        same_children(&self.children, &other.children)
            && same_classes(&self.classes, &other.classes)
            && self.tag == other.tag
    }
}

/// A container for level elements to be grouped to the right of the container.
pub struct LevelRight {
    props: LevelRightProps,
}

impl LevelRight {
    /// The property snapshot that the block holds, in contracts.
    pub closed spec fn props(&self) -> LevelRightProps {
        self.props
    }

    /// What a snapshot renders to: an element with the caller's tag, the class `level-right` and the
    /// caller's classes.
    pub open spec fn rendered(p: LevelRightProps) -> RenderedNodeView {
        element(p.tag@, "level-right"@, p.classes, Seq::empty(), p.children@)
    }

    /// Stores the initial snapshot; nothing is rendered yet.
    pub fn create(props: LevelRightProps) -> (r: Self)
        ensures
            r.props() == props,
    {
        LevelRight { props }
    }

    /// The snapshot that the block holds.
    pub fn snapshot(&self) -> (r: &LevelRightProps)
        ensures
            *r == self.props(),
    {
        &self.props
    }

    /// The block has no message of its own: the snapshot stays as it is, and no
    /// render is asked for.
    pub fn update(&mut self, _msg: ()) -> (r: bool)
        ensures
            !r,
            final(self).props() == old(self).props(),
    {
        false
    }

    /// Takes the next snapshot where it is not structurally equal to the stored
    /// one, and says whether it did: `true` asks for a render.
    pub fn changed(&mut self, next: LevelRightProps) -> (r: bool)
        ensures
            r == (old(self).props()@ != next@),
            r ==> final(self).props() == next,
            !r ==> final(self).props() == old(self).props(),
    {
        neq_assign(&mut self.props, next)
    }

    /// Renders the stored snapshot.
    pub fn view(&self) -> (r: RenderedNode)
        ensures
            r@ == Self::rendered(self.props()),
            r@.tag == self.props().tag@,
    {
        let modifiers: Vec<Modifier> = Vec::new();
        proof {
            reveal_strlit("level-right");
        }
        render_element(
            self.props.tag.clone(),
            "level-right",
            &self.props.classes,
            &modifiers,
            &self.props.children,
        )
    }
}

/// The properties of `LevelItem`.
pub struct LevelItemProps {
    /// The child nodes, in rendering order.
    pub children: Vec<u64>,
    /// Classes that the caller adds.
    pub classes: Option<Classes>,
    /// The HTML tag to use for this component.
    pub tag: String,
}

pub struct LevelItemPropsView {
    pub children: Seq<u64>,
    pub classes: Option<Seq<Seq<char>>>,
    pub tag: Seq<char>,
}

impl View for LevelItemProps {
    type V = LevelItemPropsView;

    open spec fn view(&self) -> LevelItemPropsView {
        LevelItemPropsView {
            children: self.children@,
            classes: classes_view(self.classes),
            tag: self.tag@,
        }
    }
}

impl Default for LevelItemProps {
    /// No children, no classes of the caller's and the tag `div`.
    fn default() -> (r: Self)
        ensures
            r@ == (LevelItemPropsView {
                children: Seq::empty(),
                classes: None,
                tag: "div"@,
            }),
    {
        LevelItemProps {
            children: Vec::new(),
            classes: None,
            tag: "div".to_owned(),
        }
    }
}

impl Snapshot for LevelItemProps {
    open spec fn equal(&self, other: &Self) -> bool {
        self@ == other@
    }

    fn same(&self, other: &Self) -> (r: bool) {
        same_children(&self.children, &other.children)
            && same_classes(&self.classes, &other.classes)
            && self.tag == other.tag
    }
}

/// An individual element of a level container.
pub struct LevelItem {
    props: LevelItemProps,
}

impl LevelItem {
    /// The property snapshot that the block holds, in contracts.
    pub closed spec fn props(&self) -> LevelItemProps {
        self.props
    }

    /// What a snapshot renders to: an element with the caller's tag, the class `level-item` and the
    /// caller's classes.
    pub open spec fn rendered(p: LevelItemProps) -> RenderedNodeView {
        element(p.tag@, "level-item"@, p.classes, Seq::empty(), p.children@)
    }

    /// Stores the initial snapshot; nothing is rendered yet.
    pub fn create(props: LevelItemProps) -> (r: Self)
        ensures
            r.props() == props,
    {
        LevelItem { props }
    }

    /// The snapshot that the block holds.
    pub fn snapshot(&self) -> (r: &LevelItemProps)
        ensures
            *r == self.props(),
    {
        &self.props
    }

    /// The block has no message of its own: the snapshot stays as it is, and no
    /// render is asked for.
    pub fn update(&mut self, _msg: ()) -> (r: bool)
        ensures
            !r,
            final(self).props() == old(self).props(),
    {
        false
    }

    /// Takes the next snapshot where it is not structurally equal to the stored
    /// one, and says whether it did: `true` asks for a render.
    pub fn changed(&mut self, next: LevelItemProps) -> (r: bool)
        ensures
            r == (old(self).props()@ != next@),
            r ==> final(self).props() == next,
            !r ==> final(self).props() == old(self).props(),
    {
        neq_assign(&mut self.props, next)
    }

    /// Renders the stored snapshot.
    pub fn view(&self) -> (r: RenderedNode)
        ensures
            r@ == Self::rendered(self.props()),
            r@.tag == self.props().tag@,
    {
        let modifiers: Vec<Modifier> = Vec::new();
        proof {
            reveal_strlit("level-item");
        }
        render_element(
            self.props.tag.clone(),
            "level-item",
            &self.props.classes,
            &modifiers,
            &self.props.children,
        )
    }
}

} // verus!
