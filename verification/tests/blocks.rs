use ybc::elements::block::{Block, BlockProps};
use ybc::elements::delete::{Delete, DeleteProps};
use ybc::elements::panel::{Box as Panel, BoxProps};
use ybc::form::control::{Control, ControlProps};
use ybc::layout::container::{Container, ContainerProps};
use ybc::layout::footer::{Footer, FooterProps};
use ybc::layout::level::{
    Level, LevelItem, LevelItemProps, LevelLeft, LevelLeftProps, LevelProps, LevelRight,
    LevelRightProps,
};
use ybc::component::Snapshot;
use ybc::node::Listener;
use yew::Classes;

#[test]
fn container_fluid_with_two_children() {
    let props = ContainerProps { children: vec![11, 22], classes: None, fluid: true };
    let node = Container::create(props).view();
    assert_eq!(node.tag, "div");
    assert_eq!(node.classes.to_string(), "container is-fluid");
    assert!(node.classes.contains("container"));
    assert!(node.classes.contains("is-fluid"));
    assert_eq!(node.children, vec![11, 22]);
    assert!(node.input.is_none());
    assert_eq!(node.listener, Listener::Inert);
}

#[test]
fn container_not_fluid() {
    let node = Container::create(ContainerProps::default()).view();
    assert_eq!(node.tag, "div");
    assert_eq!(node.classes.to_string(), "container");
    assert!(node.children.is_empty());
}

#[test]
fn container_fluid_toggles_one_token() {
    let extra = Some(Classes::from("mine yours"));
    let mut c = Container::create(ContainerProps { children: vec![1], classes: extra.clone(), fluid: false });
    let off = c.view();
    assert!(c.changed(ContainerProps { children: vec![1], classes: extra, fluid: true }));
    let on = c.view();
    assert_eq!(off.classes.to_string(), "container mine yours");
    assert_eq!(on.classes.to_string(), "container mine yours is-fluid");
    assert_eq!(off.children, on.children);
    assert_eq!(off.tag, on.tag);
}

#[test]
fn delete_with_tag_a_and_a_click_handler() {
    let props = DeleteProps { tag: "a".to_string(), onclick: Some(7), ..DeleteProps::default() };
    let node = Delete::create(props).view();
    assert_eq!(node.tag, "a");
    assert_eq!(node.classes.to_string(), "delete");
    assert_eq!(node.listener, Listener::Click { callback: Some(7) });
    assert!(node.children.is_empty());
}

#[test]
fn delete_defaults_to_a_button_with_the_inert_handler() {
    let mut d = Delete::create(DeleteProps::default());
    let node = d.view();
    assert_eq!(node.tag, "button");
    assert_eq!(node.classes.to_string(), "delete");
    assert_eq!(node.listener, Listener::Click { callback: None });
    assert!(!d.update(()));
    assert_eq!(d.view().tag, "button");
}

#[test]
fn spacer_block_renders_a_div() {
    let props = BlockProps { children: vec![5, 4, 3], classes: Some(Classes::from("mt-1 block")) };
    let mut b = Block::create(props);
    let node = b.view();
    assert_eq!(node.tag, "div");
    assert_eq!(node.classes.to_string(), "block mt-1");
    assert_eq!(node.children, vec![5, 4, 3]);
    assert!(!b.update(()));
}

#[test]
fn panel_renders_a_div_with_the_class_box() {
    let mut p = Panel::create(BoxProps::default());
    let node = p.view();
    assert_eq!(node.tag, "div");
    assert_eq!(node.classes.to_string(), "box");
    assert!(!p.update(()));
    assert!(!p.change(BoxProps::default()));
    assert!(p.change(BoxProps { children: vec![1], classes: None }));
    assert_eq!(p.view().children, vec![1]);
}

#[test]
fn footer_renders_a_footer() {
    let mut f = Footer::create(FooterProps { children: vec![9], classes: Some(Classes::from("dark")) });
    let node = f.view();
    assert_eq!(node.tag, "footer");
    assert_eq!(node.classes.to_string(), "footer dark");
    assert_eq!(node.children, vec![9]);
    assert!(!f.update(()));
}

#[test]
fn control_expanded() {
    let mut c = Control::create(ControlProps { expanded: true, ..ControlProps::default() });
    let node = c.view();
    assert_eq!(node.tag, "div");
    assert_eq!(node.classes.to_string(), "control is-expanded");
    assert!(c.changed(ControlProps::default()));
    assert_eq!(c.view().classes.to_string(), "control");
    assert!(!c.update(()));
}

#[test]
fn level_family_defaults() {
    let l = Level::create(LevelProps::default()).view();
    assert_eq!((l.tag.as_str(), l.classes.to_string().as_str()), ("nav", "level"));
    let l = LevelLeft::create(LevelLeftProps::default()).view();
    assert_eq!((l.tag.as_str(), l.classes.to_string().as_str()), ("div", "level-left"));
    let l = LevelRight::create(LevelRightProps::default()).view();
    assert_eq!((l.tag.as_str(), l.classes.to_string().as_str()), ("div", "level-right"));
    let l = LevelItem::create(LevelItemProps::default()).view();
    assert_eq!((l.tag.as_str(), l.classes.to_string().as_str()), ("div", "level-item"));
}

#[test]
fn dynamic_tag_is_used_as_it_is() {
    let tag = "section".to_string();
    let classes = Some(Classes::from("wide"));
    let n = Level::create(LevelProps { children: vec![1, 2], classes: classes.clone(), tag: tag.clone() }).view();
    assert_eq!(n.tag, "section");
    assert_eq!(n.classes.to_string(), "level wide");
    assert_eq!(n.children, vec![1, 2]);
    let n = LevelLeft::create(LevelLeftProps { children: vec![], classes: None, tag: tag.clone() }).view();
    assert_eq!(n.tag, "section");
    let n = LevelRight::create(LevelRightProps { children: vec![3], classes: None, tag: tag.clone() }).view();
    assert_eq!(n.tag, "section");
    let n = LevelItem::create(LevelItemProps { children: vec![], classes: classes.clone(), tag: tag.clone() }).view();
    assert_eq!(n.tag, "section");
    let n = Control::create(ControlProps { children: vec![], classes: None, tag: tag.clone(), expanded: true }).view();
    assert_eq!(n.tag, "section");
    assert_eq!(n.classes.to_string(), "control is-expanded");
    let n = Delete::create(DeleteProps { children: vec![], classes: None, tag, onclick: None }).view();
    assert_eq!(n.tag, "section");
}

#[test]
fn tag_is_not_validated() {
    let n = Level::create(LevelProps { children: vec![], classes: None, tag: "not a tag".to_string() }).view();
    assert_eq!(n.tag, "not a tag");
    let n = Level::create(LevelProps { children: vec![], classes: None, tag: String::new() }).view();
    assert_eq!(n.tag, "");
}

#[test]
fn identical_snapshot_asks_for_no_render() {
    let make = || DeleteProps {
        children: vec![1, 2, 3],
        classes: Some(Classes::from("a b")),
        tag: "a".to_string(),
        onclick: Some(4),
    };
    let mut d = Delete::create(make());
    assert!(!d.changed(make()));
    assert!(!d.changed(make()));
    assert!(make().same(&make()));
}

#[test]
fn any_field_difference_asks_for_a_render() {
    let make = || DeleteProps {
        children: vec![1, 2, 3],
        classes: Some(Classes::from("a b")),
        tag: "a".to_string(),
        onclick: Some(4),
    };
    let mut d = Delete::create(make());
    assert!(d.changed(DeleteProps { children: vec![1, 3, 2], ..make() }));
    assert_eq!(d.view().children, vec![1, 3, 2]);
    assert!(d.changed(DeleteProps { children: vec![1, 2], ..make() }));
    assert!(d.changed(make()));
    assert!(d.changed(DeleteProps { classes: Some(Classes::from("b a")), ..make() }));
    assert_eq!(d.view().classes.to_string(), "delete b a");
    assert!(d.changed(DeleteProps { classes: None, ..make() }));
    assert!(d.changed(DeleteProps { classes: Some(Classes::new()), ..make() }));
    assert!(d.changed(make()));
    assert!(d.changed(DeleteProps { tag: "button".to_string(), ..make() }));
    assert!(d.changed(DeleteProps { onclick: Some(5), ..make() }));
    assert!(d.changed(DeleteProps { onclick: None, ..make() }));
    assert!(d.changed(make()));
    assert!(!d.changed(make()));
    assert_eq!(d.view().tag, "a");
    assert_eq!(d.snapshot().children, vec![1, 2, 3]);
    assert_eq!(d.snapshot().onclick, Some(4));
}

#[test]
fn classes_in_another_order_are_another_snapshot() {
    let a = BlockProps { children: vec![], classes: Some(Classes::from("x y")) };
    let b = BlockProps { children: vec![], classes: Some(Classes::from("y x")) };
    let c = BlockProps { children: vec![], classes: Some(Classes::from("x  y")) };
    assert!(!a.same(&b));
    assert!(a.same(&c));
    let mut block = Block::create(a);
    assert!(block.changed(b));
    assert!(block.changed(c));
}

#[test]
fn render_does_not_depend_on_earlier_renders() {
    let c = Container::create(ContainerProps { children: vec![8], classes: Some(Classes::from("k")), fluid: true });
    let first = c.view();
    let second = c.view();
    assert_eq!(first.tag, second.tag);
    assert_eq!(first.classes, second.classes);
    assert_eq!(first.children, second.children);
}

#[test]
fn default_properties() {
    let p = ControlProps::default();
    assert!(p.children.is_empty() && p.classes.is_none() && !p.expanded);
    assert_eq!(p.tag, "div");
    let p = DeleteProps::default();
    assert!(p.children.is_empty() && p.classes.is_none() && p.onclick.is_none());
    assert_eq!(p.tag, "button");
    let p = ContainerProps::default();
    assert!(p.children.is_empty() && p.classes.is_none() && !p.fluid);
    let p = BlockProps::default();
    assert!(p.children.is_empty() && p.classes.is_none());
    let p = FooterProps::default();
    assert!(p.children.is_empty() && p.classes.is_none());
    assert_eq!(LevelProps::default().tag, "nav");
    assert_eq!(LevelLeftProps::default().tag, "div");
    assert_eq!(LevelRightProps::default().tag, "div");
    assert_eq!(LevelItemProps::default().tag, "div");
}

#[test]
fn create_stores_the_snapshot_as_it_is() {
    let c = Container::create(ContainerProps { children: vec![2, 1], classes: None, fluid: true });
    assert_eq!(c.snapshot().children, vec![2, 1]);
    assert!(c.snapshot().fluid);
    assert!(c.snapshot().classes.is_none());
}
