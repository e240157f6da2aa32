use levocale::menu::{
    build_entries, find_header, header_item, leaf_item, push_group, Action, EntryKind, Group,
    MenuItem,
};

fn pair(code: &str, name: &str) -> (String, String) {
    (code.to_string(), name.to_string())
}

fn two_locales() -> Vec<(String, String)> {
    vec![
        pair("en_US.UTF-8", "English (US)"),
        pair("da_DK.UTF-8", "Danish (Denmark)"),
    ]
}

fn labels(items: &[MenuItem]) -> Vec<String> {
    items.iter().map(|item| item.label.clone()).collect()
}

#[test]
fn both_groups_expanded_give_six_rows() {
    let items = build_entries(true, true, "dk", "en_US.UTF-8", &two_locales());
    assert_eq!(items.len(), 6);
    assert_eq!(
        labels(&items),
        vec![
            "▼ Keyboard Layouts",
            "● Danish (Denmark)",
            "  English (US)",
            "▼ System Locales",
            "● English (US)",
            "  Danish (Denmark)",
        ]
    );
    let descriptions: Vec<String> = items.iter().map(|i| i.description.clone()).collect();
    assert_eq!(
        descriptions,
        vec![
            "Current: dk",
            "Layout: dk",
            "Layout: us",
            "Current: en_US.UTF-8",
            "en_US.UTF-8",
            "da_DK.UTF-8",
        ]
    );
    assert_eq!(items[0].action, Action::ToggleGroup(Group::KeyboardLayout));
    assert_eq!(items[1].action, Action::ApplyLayout("dk".to_string()));
    assert_eq!(items[2].action, Action::ApplyLayout("us".to_string()));
    assert_eq!(items[3].action, Action::ToggleGroup(Group::Locale));
    assert_eq!(items[4].action, Action::ApplyLocale("en_US.UTF-8".to_string()));
    assert_eq!(items[5].action, Action::ApplyLocale("da_DK.UTF-8".to_string()));
}

#[test]
fn collapsed_groups_show_their_headers_only() {
    let items = build_entries(false, false, "us", "C", &two_locales());
    assert_eq!(labels(&items), vec!["▶ Keyboard Layouts", "▶ System Locales"]);
    let items = build_entries(false, true, "us", "C", &two_locales());
    assert_eq!(
        labels(&items),
        vec![
            "▶ Keyboard Layouts",
            "▼ System Locales",
            "  English (US)",
            "  Danish (Denmark)",
        ]
    );
    let items = build_entries(true, false, "us", "C", &two_locales());
    assert_eq!(
        labels(&items),
        vec![
            "▼ Keyboard Layouts",
            "  Danish (Denmark)",
            "● English (US)",
            "▶ System Locales",
        ]
    );
}

#[test]
fn a_group_without_options_is_left_out() {
    let locales = vec![pair("C.UTF-8", "C (POSIX)")];
    let items = build_entries(true, true, "unknown", "C.UTF-8", &locales);
    assert_eq!(labels(&items), vec!["▼ System Locales", "● C (POSIX)"]);
    assert!(build_entries(true, true, "us", "C", &Vec::new()).is_empty());
}

#[test]
fn building_twice_gives_the_same_rows() {
    let first = build_entries(true, false, "us", "da_DK.UTF-8", &two_locales());
    let second = build_entries(true, false, "us", "da_DK.UTF-8", &two_locales());
    assert_eq!(first, second);
}

#[test]
fn the_current_mark_needs_the_exact_code() {
    let items = build_entries(true, true, "US", "en_US", &two_locales());
    assert_eq!(
        labels(&items),
        vec![
            "▼ Keyboard Layouts",
            "  Danish (Denmark)",
            "  English (US)",
            "▼ System Locales",
            "  English (US)",
            "  Danish (Denmark)",
        ]
    );
}

#[test]
fn header_rows_name_group_and_current_value() {
    let item = header_item(Group::Locale, false, "unknown");
    assert_eq!(item.label, "▶ System Locales");
    assert_eq!(item.description, "Current: unknown");
    assert_eq!(item.action, Action::ToggleGroup(Group::Locale));
    assert_eq!(item.kind(), EntryKind::GroupHeader(Group::Locale));
    let item = header_item(Group::KeyboardLayout, true, "");
    assert_eq!(item.label, "▼ Keyboard Layouts");
    assert_eq!(item.description, "Current: ");
}

#[test]
fn leaf_rows_carry_their_action() {
    let item = leaf_item(Group::KeyboardLayout, "us", "us", "English (US)");
    assert_eq!(item.label, "● English (US)");
    assert_eq!(item.description, "Layout: us");
    assert_eq!(item.action, Action::ApplyLayout("us".to_string()));
    assert_eq!(item.kind(), EntryKind::Leaf);
    let item = leaf_item(Group::Locale, "us", "fr_FR.UTF-8", "French (France)");
    assert_eq!(item.label, "  French (France)");
    assert_eq!(item.description, "fr_FR.UTF-8");
    assert_eq!(item.action, Action::ApplyLocale("fr_FR.UTF-8".to_string()));
    assert_eq!(item.action.duplicate(), item.action);
}

#[test]
fn a_label_that_looks_like_a_header_is_still_a_leaf() {
    let locales = vec![pair("xx_YY", "▼ System Locales")];
    let items = build_entries(true, true, "", "", &locales);
    assert_eq!(items.len(), 2);
    assert_eq!(items[0].kind(), EntryKind::GroupHeader(Group::Locale));
    assert_eq!(items[1].kind(), EntryKind::Leaf);
    assert_eq!(find_header(&items, Group::Locale), 0);
}

#[test]
fn groups_are_appended_in_order() {
    let mut items = Vec::new();
    push_group(&mut items, Group::Locale, true, "b", &vec![pair("a", "A"), pair("b", "B")]);
    push_group(&mut items, Group::KeyboardLayout, false, "x", &vec![pair("x", "X")]);
    push_group(&mut items, Group::Locale, true, "x", &Vec::new());
    assert_eq!(
        labels(&items),
        vec!["▼ System Locales", "  A", "● B", "▶ Keyboard Layouts"]
    );
}

#[test]
fn headers_are_found_by_group() {
    let items = build_entries(true, true, "dk", "en_US.UTF-8", &two_locales());
    assert_eq!(find_header(&items, Group::KeyboardLayout), 0);
    assert_eq!(find_header(&items, Group::Locale), 3);
    let items = build_entries(false, true, "dk", "en_US.UTF-8", &two_locales());
    assert_eq!(find_header(&items, Group::Locale), 1);
    let only_locales = build_entries(true, true, "", "", &vec![pair("C", "C (POSIX)")]);
    assert_eq!(find_header(&only_locales, Group::KeyboardLayout), only_locales.len());
    assert_eq!(find_header(&Vec::new(), Group::Locale), 0);
}

#[test]
fn an_option_shows_the_code_that_its_action_applies() {
    let items = build_entries(true, true, "dk", "en_US.UTF-8", &two_locales());
    for item in &items {
        match &item.action {
            Action::ApplyLayout(code) => {
                assert_eq!(item.kind(), EntryKind::Leaf);
                assert_eq!(item.description, format!("Layout: {}", code));
            }
            Action::ApplyLocale(code) => {
                assert_eq!(item.kind(), EntryKind::Leaf);
                assert_eq!(&item.description, code);
            }
            Action::ToggleGroup(group) => {
                assert_eq!(item.kind(), EntryKind::GroupHeader(*group));
            }
            Action::NoOp => panic!("a row that asks for nothing"),
        }
    }
}
