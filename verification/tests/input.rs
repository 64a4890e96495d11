use ybc::form::input::{Input, InputProps, InputType, Size};
use ybc::node::{Effect, Listener};
use yew::Classes;

fn props() -> InputProps {
    InputProps::new("user".to_string(), "before".to_string(), Some(3))
}

#[test]
fn input_change_is_relayed_once_and_not_stored() {
    let mut input = Input::create(props());
    let (effect, rerender) = input.update("abc".to_string());
    match effect {
        Effect::Emit { callback, value } => {
            assert_eq!(callback, 3);
            assert_eq!(value, "abc");
        },
        Effect::Nothing => panic!("the change was not relayed"),
    }
    assert!(!rerender);
    assert_eq!(input.snapshot().value, "before");
    assert_eq!(input.snapshot().update, Some(3));
    let node = input.view();
    assert_eq!(node.input.unwrap().value, "before");
    assert!(!input.changed(props()));
}

#[test]
fn input_without_callback_relays_nothing() {
    let mut input = Input::create(InputProps::new("n".to_string(), "v".to_string(), None));
    let (effect, rerender) = input.update("abc".to_string());
    assert!(matches!(effect, Effect::Nothing));
    assert!(!rerender);
    assert_eq!(input.view().input.unwrap().value, "v");
}

#[test]
fn input_defaults() {
    let node = Input::create(props()).view();
    assert_eq!(node.tag, "input");
    assert_eq!(node.classes.to_string(), "input");
    assert!(node.children.is_empty());
    assert_eq!(node.listener, Listener::Input);
    let attrs = node.input.unwrap();
    assert_eq!(attrs.name, "user");
    assert_eq!(attrs.value, "before");
    assert_eq!(attrs.kind, "text");
    assert_eq!(attrs.placeholder, "");
    assert!(!attrs.disabled);
    assert!(!attrs.readonly);
}

#[test]
fn input_with_every_modifier() {
    let p = InputProps {
        classes: Some(Classes::from("wide is-loading")),
        kind: InputType::Password,
        placeholder: "secret".to_string(),
        size: Some(Size::Large),
        rounded: true,
        loading: true,
        disabled: true,
        readonly: true,
        is_static: true,
        ..props()
    };
    let node = Input::create(p).view();
    assert_eq!(node.classes.to_string(), "input wide is-loading is-large is-rounded is-static");
    let attrs = node.input.unwrap();
    assert_eq!(attrs.kind, "password");
    assert_eq!(attrs.placeholder, "secret");
    assert!(attrs.disabled);
    assert!(attrs.readonly);
}

#[test]
fn input_flags_each_add_their_token() {
    let n = Input::create(InputProps { rounded: true, ..props() }).view();
    assert_eq!(n.classes.to_string(), "input is-rounded");
    let n = Input::create(InputProps { loading: true, ..props() }).view();
    assert_eq!(n.classes.to_string(), "input is-loading");
    let n = Input::create(InputProps { is_static: true, ..props() }).view();
    assert_eq!(n.classes.to_string(), "input is-static");
    let n = Input::create(InputProps { disabled: true, readonly: true, ..props() }).view();
    assert_eq!(n.classes.to_string(), "input");
}

#[test]
fn input_kinds_have_their_external_form() {
    assert_eq!(InputType::Text.to_string(), "text");
    assert_eq!(InputType::Password.to_string(), "password");
    assert_eq!(InputType::Email.to_string(), "email");
    assert_eq!(InputType::Tel.to_string(), "tel");
    let n = Input::create(InputProps { kind: InputType::Email, ..props() }).view();
    assert_eq!(n.input.unwrap().kind, "email");
    let n = Input::create(InputProps { kind: InputType::Tel, ..props() }).view();
    assert_eq!(n.input.unwrap().kind, "tel");
}

#[test]
fn sizes_have_their_token() {
    assert_eq!(Size::Small.to_string(), "is-small");
    assert_eq!(Size::Normal.as_str(), "is-normal");
    assert_eq!(Size::Medium.to_string(), "is-medium");
    assert_eq!(Size::Large.as_str(), "is-large");
    let n = Input::create(InputProps { size: Some(Size::Small), rounded: true, ..props() }).view();
    assert_eq!(n.classes.to_string(), "input is-small is-rounded");
}

#[test]
fn input_snapshot_change_detection() {
    let mut input = Input::create(props());
    assert!(!input.changed(props()));
    assert!(input.changed(InputProps { value: "after".to_string(), ..props() }));
    assert_eq!(input.view().input.unwrap().value, "after");
    assert!(input.changed(InputProps { name: "other".to_string(), ..props() }));
    assert!(input.changed(InputProps { update: Some(4), ..props() }));
    assert!(input.changed(InputProps { update: None, ..props() }));
    assert!(input.changed(InputProps { classes: Some(Classes::from("c")), ..props() }));
    assert!(input.changed(InputProps { kind: InputType::Tel, ..props() }));
    assert!(input.changed(InputProps { placeholder: "p".to_string(), ..props() }));
    assert!(input.changed(InputProps { size: Some(Size::Normal), ..props() }));
    assert!(input.changed(InputProps { size: Some(Size::Medium), ..props() }));
    assert!(input.changed(InputProps { rounded: true, ..props() }));
    assert!(input.changed(InputProps { loading: true, ..props() }));
    assert!(input.changed(InputProps { disabled: true, ..props() }));
    assert!(input.changed(InputProps { readonly: true, ..props() }));
    assert!(input.changed(InputProps { is_static: true, ..props() }));
    assert!(!input.changed(InputProps { is_static: true, ..props() }));
    assert!(input.changed(props()));
}
