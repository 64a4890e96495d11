//! The text input: a controlled element, whose value the caller owns.

use vstd::prelude::*;
use yew::Classes;
use crate::classes::{
    composed, extra_tokens, lemma_modifier_toggle, modifier_views, Modifier,
};
use crate::component::{neq_assign, render_element, Snapshot};
use crate::node::{
    classes_view, same_callback, same_classes, Effect, EffectView, InputAttributes,
    InputAttributesView, Listener, RenderedNode, RenderedNodeView,
};

verus! {

/// The 4 allowed types for an input component.
#[derive(Clone, Copy, Debug, PartialEq, Eq, Structural)]
pub enum InputType {
    Text,
    Password,
    Email,
    Tel,
}

impl InputType {
    /// The value of the `type` attribute that stands for this input type.
    pub open spec fn external_form(self) -> Seq<char> {
        match self {
            InputType::Text => "text"@,
            InputType::Password => "password"@,
            InputType::Email => "email"@,
            InputType::Tel => "tel"@,
        }
    }

    /// The value of the `type` attribute, as a string.
    pub fn to_string(&self) -> (r: String)
        ensures
            r@ == self.external_form(),
    {
        match self {
            InputType::Text => "text".to_owned(),
            InputType::Password => "password".to_owned(),
            InputType::Email => "email".to_owned(),
            InputType::Tel => "tel".to_owned(),
        }
    }
}

/// The sizes that an input can have.
#[derive(Clone, Copy, Debug, PartialEq, Eq, Structural)]
pub enum Size {
    Small,
    Normal,
    Medium,
    Large,
}

impl Size {
    /// The class token that selects this size.
    pub open spec fn token(self) -> Seq<char> {
        match self {
            Size::Small => "is-small"@,
            Size::Normal => "is-normal"@,
            Size::Medium => "is-medium"@,
            Size::Large => "is-large"@,
        }
    }

    /// The class token that selects this size, as a string.
    pub fn as_str(&self) -> (r: &'static str)
        ensures
            r@ == self.token(),
    {
        match self {
            Size::Small => "is-small",
            Size::Normal => "is-normal",
            Size::Medium => "is-medium",
            Size::Large => "is-large",
        }
    }

    /// The class token that selects this size, as an owned string.
    pub fn to_string(&self) -> (r: String)
        ensures
            r@ == self.token(),
    {
        self.as_str().to_owned()
    }
}

/// The properties of a text input.
pub struct InputProps {
    /// The `name` attribute for this form element.
    pub name: String,
    /// The controlled value of this form element.
    pub value: String,
    /// The callback to be used for propagating changes to this element's value:
    /// the caller's handle of it, or `None` for the inert callback.
    pub update: Option<u64>,
    /// Classes that the caller adds.
    pub classes: Option<Classes>,
    /// The input type of this component.
    pub kind: InputType,
    /// The placeholder value for this component.
    pub placeholder: String,
    /// The size of this component.
    pub size: Option<Size>,
    /// Use rounded appearance.
    pub rounded: bool,
    /// Display a loading spinner within this component.
    pub loading: bool,
    /// Disable this component.
    pub disabled: bool,
    /// Make this component read-only.
    pub readonly: bool,
    /// Make this component static.
    pub is_static: bool,
}

pub struct InputPropsView {
    pub name: Seq<char>,
    pub value: Seq<char>,
    pub update: Option<u64>,
    pub classes: Option<Seq<Seq<char>>>,
    pub kind: InputType,
    pub placeholder: Seq<char>,
    pub size: Option<Size>,
    pub rounded: bool,
    pub loading: bool,
    pub disabled: bool,
    pub readonly: bool,
    pub is_static: bool,
}

impl View for InputProps {
    type V = InputPropsView;

    open spec fn view(&self) -> InputPropsView {
        InputPropsView {
            name: self.name@,
            value: self.value@,
            update: self.update,
            classes: classes_view(self.classes),
            kind: self.kind,
            placeholder: self.placeholder@,
            size: self.size,
            rounded: self.rounded,
            loading: self.loading,
            disabled: self.disabled,
            readonly: self.readonly,
            is_static: self.is_static,
        }
    }
}

/// Whether two optional sizes are the same.
fn same_size(a: &Option<Size>, b: &Option<Size>) -> (r: bool)
    ensures
        r == (*a == *b),
{
    match (a, b) {
        (Some(x), Some(y)) => *x == *y,
        (None, None) => true,
        _ => false,
    }
}

impl Snapshot for InputProps {
    open spec fn equal(&self, other: &Self) -> bool {
        self@ == other@
    }

    fn same(&self, other: &Self) -> (r: bool) {
        self.name == other.name && self.value == other.value && same_callback(
            &self.update,
            &other.update,
        ) && same_classes(&self.classes, &other.classes) && self.kind == other.kind
            && self.placeholder == other.placeholder && same_size(&self.size, &other.size)
            && self.rounded == other.rounded && self.loading == other.loading && self.disabled
            == other.disabled && self.readonly == other.readonly && self.is_static
            == other.is_static
    }
}

impl InputProps {
    /// The properties of an input with the given name, value and callback, and
    /// every other field at its default: the type `text`, no placeholder, no
    /// size, no classes of the caller's, and every flag off.
    pub fn new(name: String, value: String, update: Option<u64>) -> (r: Self)
        ensures
            r@ == (InputPropsView {
                name: name@,
                value: value@,
                update,
                classes: None,
                kind: InputType::Text,
                placeholder: Seq::empty(),
                size: None,
                rounded: false,
                loading: false,
                disabled: false,
                readonly: false,
                is_static: false,
            }),
    {
        InputProps {
            name,
            value,
            update,
            classes: None,
            kind: InputType::Text,
            placeholder: String::new(),
            size: None,
            rounded: false,
            loading: false,
            disabled: false,
            readonly: false,
            is_static: false,
        }
    }
}

/// A text input element.
///
/// The input is a controlled component: its value is supplied by the caller,
/// and every change is handed to the caller's callback. The block keeps
/// nothing of it.
pub struct Input {
    props: InputProps,
}

impl Input {
    /// The property snapshot that the block holds, in contracts.
    pub closed spec fn props(&self) -> InputProps {
        self.props
    }

    /// The modifiers of an input, in their order: the size's token where a size
    /// is set, then `is-rounded`, `is-loading` and `is-static`, each under its
    /// flag.
    pub open spec fn modifiers(p: InputProps) -> Seq<(bool, Seq<char>)> {
        let size = match p.size {
            Some(s) => seq![(true, s.token())],
            None => Seq::empty(),
        };
        size + seq![
            (p.rounded, "is-rounded"@),
            (p.loading, "is-loading"@),
            (p.is_static, "is-static"@),
        ]
    }

    /// What a snapshot renders to: one native `input` element without
    /// children, with the snapshot's attributes, the class set `input`, the
    /// caller's classes and the modifiers, whose changes come back as messages.
    pub open spec fn rendered(p: InputProps) -> RenderedNodeView {
        RenderedNodeView {
            tag: "input"@,
            classes: composed("input"@, extra_tokens(p.classes), Self::modifiers(p)),
            children: Seq::empty(),
            input: Some(
                InputAttributesView {
                    name: p.name@,
                    value: p.value@,
                    kind: p.kind.external_form(),
                    placeholder: p.placeholder@,
                    disabled: p.disabled,
                    readonly: p.readonly,
                },
            ),
            listener: Listener::Input,
        }
    }

    /// What a message asks of the host: to invoke the snapshot's callback once
    /// with the raw value, or nothing where the callback is inert.
    pub open spec fn relayed(p: InputProps, msg: Seq<char>) -> EffectView {
        match p.update {
            Some(callback) => EffectView::Emit { callback, value: msg },
            None => EffectView::Nothing,
        }
    }

    /// Stores the initial snapshot; nothing is rendered yet.
    pub fn create(props: InputProps) -> (r: Self)
        ensures
            r.props() == props,
    {
        Input { props }
    }

    /// The snapshot that the block holds.
    pub fn snapshot(&self) -> (r: &InputProps)
        ensures
            *r == self.props(),
    {
        &self.props
    }

    /// Relays a change of the element's value: the raw value goes to the
    /// caller's callback as it is. The snapshot stays as it is, so the next
    /// render shows the value that the caller supplied, and no render is asked
    /// for.
    pub fn update(&mut self, msg: String) -> (r: (Effect, bool))
        ensures
            r.0@ == Self::relayed(old(self).props(), msg@),
            !r.1,
            final(self).props() == old(self).props(),
    {
        match self.props.update {
            Some(callback) => (Effect::Emit { callback, value: msg }, false),
            None => (Effect::Nothing, false),
        }
    }

    /// Takes the next snapshot where it is not structurally equal to the stored
    /// one, and says whether it did: `true` asks for a render.
    pub fn changed(&mut self, next: InputProps) -> (r: bool)
        ensures
            r == (old(self).props()@ != next@),
            r ==> final(self).props() == next,
            !r ==> final(self).props() == old(self).props(),
    {
        neq_assign(&mut self.props, next)
    }

    /// Renders the stored snapshot.
    pub fn view(&self) -> (r: RenderedNode)
        ensures
            r@ == Self::rendered(self.props()),
    {
        let mut modifiers: Vec<Modifier> = Vec::new();
        match &self.props.size {
            Some(size) => {
                modifiers.push(Modifier { condition: true, token: size.as_str() });
            },
            None => {},
        }
        modifiers.push(Modifier { condition: self.props.rounded, token: "is-rounded" });
        modifiers.push(Modifier { condition: self.props.loading, token: "is-loading" });
        modifiers.push(Modifier { condition: self.props.is_static, token: "is-static" });
        proof {
            reveal_strlit("input");
            reveal_strlit("is-small");
            reveal_strlit("is-normal");
            reveal_strlit("is-medium");
            reveal_strlit("is-large");
            reveal_strlit("is-rounded");
            reveal_strlit("is-loading");
            reveal_strlit("is-static");
            assert(modifier_views(modifiers@) =~= Self::modifiers(self.props));
        }
        let children: Vec<u64> = Vec::new();
        let mut node = render_element(
            "input".to_owned(),
            "input",
            &self.props.classes,
            &modifiers,
            &children,
        );
        node.input = Some(
            InputAttributes {
                name: self.props.name.clone(),
                value: self.props.value.clone(),
                kind: self.props.kind.to_string(),
                placeholder: self.props.placeholder.clone(),
                disabled: self.props.disabled,
                readonly: self.props.readonly,
            },
        );
        node.listener = Listener::Input;
        node
    }

    /// The tokens that an input can add are different from each other and from
    /// the base token.
    proof fn lemma_tokens_differ()
        ensures
            "input"@.len() == 5,
            "is-small"@.len() == 8,
            "is-large"@.len() == 8,
            "is-normal"@.len() == 9,
            "is-medium"@.len() == 9,
            "is-static"@.len() == 9,
            "is-rounded"@.len() == 10,
            "is-loading"@.len() == 10,
            "is-normal"@[3] == 'n',
            "is-medium"@[3] == 'm',
            "is-static"@[3] == 's',
            "is-rounded"@[3] == 'r',
            "is-loading"@[3] == 'l',
    {
        reveal_strlit("input");
        reveal_strlit("is-small");
        reveal_strlit("is-normal");
        reveal_strlit("is-medium");
        reveal_strlit("is-large");
        reveal_strlit("is-rounded");
        reveal_strlit("is-loading");
        reveal_strlit("is-static");
    }

    /// Switching `rounded` on or off changes the presence of `is-rounded` in the
    /// rendered class set and nothing else. Of two snapshots that differ in
    /// `rounded` alone, the one with it on renders the token; the one with it off
    /// renders it only where the caller's classes hold it; every other token
    /// is rendered by both or by neither, and the rest of the element is the
    /// same.
    pub proof fn lemma_rounded_toggles(on: InputProps, off: InputProps)
        requires
            on.rounded,
            off == (InputProps { rounded: false, ..on }),
        ensures
            Self::rendered(on).classes.contains("is-rounded"@),
            Self::rendered(off).classes.contains("is-rounded"@) <==> extra_tokens(off.classes).contains(
                "is-rounded"@,
            ),
            forall|t: Seq<char>|
                t != "is-rounded"@ ==> (#[trigger] Self::rendered(on).classes.contains(t)
                    <==> Self::rendered(off).classes.contains(t)),
            Self::rendered(off) == (RenderedNodeView {
                classes: Self::rendered(off).classes,
                ..Self::rendered(on)
            }),
    {
        Self::lemma_tokens_differ();
        let k = Self::modifiers(on).len() - 3 + 0;
        lemma_modifier_toggle(
            "input"@,
            extra_tokens(on.classes),
            Self::modifiers(on),
            Self::modifiers(off),
            k,
        );
        let without = Self::modifiers(off);
        assert forall|i: int| 0 <= i < without.len() implies !((#[trigger] without[i]).0
            && without[i].1 == "is-rounded"@) by {
            if i < without.len() - 3 {
                assert(without[i].1 == on.size->Some_0.token());
            }
        }
    }

    /// Switching `loading` on or off changes the presence of `is-loading` in the
    /// rendered class set and nothing else. Of two snapshots that differ in
    /// `loading` alone, the one with it on renders the token; the one with it off
    /// renders it only where the caller's classes hold it; every other token
    /// is rendered by both or by neither, and the rest of the element is the
    /// same.
    pub proof fn lemma_loading_toggles(on: InputProps, off: InputProps)
        requires
            on.loading,
            off == (InputProps { loading: false, ..on }),
        ensures
            Self::rendered(on).classes.contains("is-loading"@),
            Self::rendered(off).classes.contains("is-loading"@) <==> extra_tokens(off.classes).contains(
                "is-loading"@,
            ),
            forall|t: Seq<char>|
                t != "is-loading"@ ==> (#[trigger] Self::rendered(on).classes.contains(t)
                    <==> Self::rendered(off).classes.contains(t)),
            Self::rendered(off) == (RenderedNodeView {
                classes: Self::rendered(off).classes,
                ..Self::rendered(on)
            }),
    {
        Self::lemma_tokens_differ();
        let k = Self::modifiers(on).len() - 3 + 1;
        lemma_modifier_toggle(
            "input"@,
            extra_tokens(on.classes),
            Self::modifiers(on),
            Self::modifiers(off),
            k,
        );
        let without = Self::modifiers(off);
        assert forall|i: int| 0 <= i < without.len() implies !((#[trigger] without[i]).0
            && without[i].1 == "is-loading"@) by {
            if i < without.len() - 3 {
                assert(without[i].1 == on.size->Some_0.token());
            }
        }
    }

    /// Switching `is_static` on or off changes the presence of `is-static` in the
    /// rendered class set and nothing else. Of two snapshots that differ in
    /// `is_static` alone, the one with it on renders the token; the one with it off
    /// renders it only where the caller's classes hold it; every other token
    /// is rendered by both or by neither, and the rest of the element is the
    /// same.
    pub proof fn lemma_is_static_toggles(on: InputProps, off: InputProps)
        requires
            on.is_static,
            off == (InputProps { is_static: false, ..on }),
        ensures
            Self::rendered(on).classes.contains("is-static"@),
            Self::rendered(off).classes.contains("is-static"@) <==> extra_tokens(off.classes).contains(
                "is-static"@,
            ),
            forall|t: Seq<char>|
                t != "is-static"@ ==> (#[trigger] Self::rendered(on).classes.contains(t)
                    <==> Self::rendered(off).classes.contains(t)),
            Self::rendered(off) == (RenderedNodeView {
                classes: Self::rendered(off).classes,
                ..Self::rendered(on)
            }),
    {
        Self::lemma_tokens_differ();
        let k = Self::modifiers(on).len() - 3 + 2;
        lemma_modifier_toggle(
            "input"@,
            extra_tokens(on.classes),
            Self::modifiers(on),
            Self::modifiers(off),
            k,
        );
        let without = Self::modifiers(off);
        assert forall|i: int| 0 <= i < without.len() implies !((#[trigger] without[i]).0
            && without[i].1 == "is-static"@) by {
            if i < without.len() - 3 {
                assert(without[i].1 == on.size->Some_0.token());
            }
        }
    }
}

} // verus!
