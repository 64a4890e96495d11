use ybc::classes::{compose, is_class_token, is_space_char, Modifier};
use yew::Classes;

fn tokens(c: &Classes) -> String {
    c.to_string()
}

#[test]
fn base_token_comes_first_and_alone() {
    let c = compose("block", &None, &Vec::new());
    assert_eq!(tokens(&c), "block");
    assert!(c.contains("block"));
}

#[test]
fn extra_classes_follow_the_base_in_their_order() {
    let extra = Some(Classes::from("zeta alpha mid"));
    let c = compose("box", &extra, &Vec::new());
    assert_eq!(tokens(&c), "box zeta alpha mid");
}

#[test]
fn extra_token_equal_to_base_is_skipped() {
    let extra = Some(Classes::from("a box b box"));
    let c = compose("box", &extra, &Vec::new());
    assert_eq!(tokens(&c), "box a b");
}

#[test]
fn empty_extra_adds_nothing() {
    let c = compose("footer", &Some(Classes::new()), &Vec::new());
    assert_eq!(tokens(&c), "footer");
}

#[test]
fn modifiers_are_appended_where_their_condition_holds() {
    let mods = vec![
        Modifier { condition: true, token: "is-a" },
        Modifier { condition: false, token: "is-b" },
        Modifier { condition: true, token: "is-c" },
    ];
    let c = compose("input", &Some(Classes::from("mine")), &mods);
    assert_eq!(tokens(&c), "input mine is-a is-c");
    assert!(!c.contains("is-b"));
}

#[test]
fn modifier_already_present_keeps_its_first_place() {
    let mods = vec![
        Modifier { condition: true, token: "is-a" },
        Modifier { condition: true, token: "mine" },
        Modifier { condition: true, token: "is-a" },
    ];
    let c = compose("input", &Some(Classes::from("mine")), &mods);
    assert_eq!(tokens(&c), "input mine is-a");
}

#[test]
fn disabled_modifier_need_not_be_a_token() {
    let mods = vec![Modifier { condition: false, token: "not a token" }];
    let c = compose("level", &None, &mods);
    assert_eq!(tokens(&c), "level");
}

#[test]
fn toggling_a_modifier_toggles_its_token_only() {
    let extra = Some(Classes::from("x y"));
    let off = compose("control", &extra, &vec![Modifier { condition: false, token: "is-expanded" }]);
    let on = compose("control", &extra, &vec![Modifier { condition: true, token: "is-expanded" }]);
    assert!(!off.contains("is-expanded"));
    assert!(on.contains("is-expanded"));
    for t in ["control", "x", "y", "z"] {
        assert_eq!(off.contains(t), on.contains(t));
    }
    assert_eq!(tokens(&off), "control x y");
    assert_eq!(tokens(&on), "control x y is-expanded");
}

#[test]
fn toggling_a_modifier_that_the_caller_supplied_changes_nothing() {
    let extra = Some(Classes::from("is-fluid"));
    let off = compose("container", &extra, &vec![Modifier { condition: false, token: "is-fluid" }]);
    let on = compose("container", &extra, &vec![Modifier { condition: true, token: "is-fluid" }]);
    assert_eq!(tokens(&off), "container is-fluid");
    assert_eq!(tokens(&on), "container is-fluid");
}

#[test]
fn class_tokens_are_non_empty_and_without_white_space() {
    assert!(is_class_token("block"));
    assert!(is_class_token("is-fluid"));
    assert!(is_class_token("é-ü"));
    assert!(!is_class_token(""));
    assert!(!is_class_token("a b"));
    assert!(!is_class_token(" a"));
    assert!(!is_class_token("a\t"));
    assert!(!is_class_token("a\u{a0}b"));
    assert!(!is_class_token("a\u{3000}"));
}

#[test]
fn white_space_is_what_the_standard_library_calls_white_space() {
    let mut u: u32 = 0;
    while u <= 0x11000 {
        if let Some(c) = char::from_u32(u) {
            assert_eq!(is_space_char(c), c.is_whitespace(), "U+{:04X}", u);
        }
        u += 1;
    }
}

#[test]
fn a_token_is_what_white_space_splitting_leaves_whole() {
    for s in ["delete", "level-item", "a\u{2003}b", "x\u{85}", "\u{1680}", "is-static"] {
        let words: Vec<&str> = s.split_whitespace().collect();
        assert_eq!(is_class_token(s), words == vec![s]);
    }
}
