use levocale::menu::{Action, EntryKind, Group, MenuItem};
use levocale::state::{clamp_scroll, AppState, DEFAULT_VISIBLE_ITEMS};

fn pair(code: &str, name: &str) -> (String, String) {
    (code.to_string(), name.to_string())
}

fn two_locales() -> Vec<(String, String)> {
    vec![
        pair("en_US.UTF-8", "English (US)"),
        pair("da_DK.UTF-8", "Danish (Denmark)"),
    ]
}

fn many_locales(n: usize) -> Vec<(String, String)> {
    (0..n)
        .map(|i| (format!("xx_{:02}", i), format!("Locale {}", i)))
        .collect()
}

fn state_with(locales: &Vec<(String, String)>) -> AppState {
    let mut state = AppState::new();
    state.refresh_status("us".to_string(), "en_US.UTF-8".to_string());
    state.build_menu(locales);
    state
}

fn labels(state: &AppState) -> Vec<String> {
    state.menu_items().iter().map(|item| item.label.clone()).collect()
}

fn move_to(state: &mut AppState, index: usize) {
    while state.selected() != index {
        state.move_down();
    }
}

#[test]
fn a_new_state_is_empty_with_both_groups_expanded() {
    let state = AppState::new();
    assert!(state.is_empty());
    assert_eq!(state.len(), 0);
    assert_eq!(state.selected(), 0);
    assert_eq!(state.scroll_offset(), 0);
    assert!(state.keyboard_section_expanded());
    assert!(state.locale_section_expanded());
    assert_eq!(state.current_layout(), "");
    assert_eq!(state.current_locale(), "");
}

#[test]
fn the_status_is_taken_over_without_rebuilding() {
    let mut state = state_with(&two_locales());
    let before: Vec<MenuItem> = state.menu_items().clone();
    state.refresh_status("dk".to_string(), "da_DK.UTF-8".to_string());
    assert_eq!(state.current_layout(), "dk");
    assert_eq!(state.current_locale(), "da_DK.UTF-8");
    assert_eq!(state.menu_items(), &before);
    state.build_menu(&two_locales());
    assert_eq!(
        labels(&state),
        vec![
            "▼ Keyboard Layouts",
            "● Danish (Denmark)",
            "  English (US)",
            "▼ System Locales",
            "  English (US)",
            "● Danish (Denmark)",
        ]
    );
}

#[test]
fn the_default_scenario_has_six_rows() {
    let state = state_with(&two_locales());
    assert_eq!(state.len(), 6);
    assert_eq!(state.menu_items()[0].label, "▼ Keyboard Layouts");
    assert_eq!(state.menu_items()[3].label, "▼ System Locales");
    assert_eq!(state.selected(), 0);
}

#[test]
fn moving_on_the_empty_list_changes_nothing() {
    let mut state = AppState::new();
    state.move_down();
    assert_eq!((state.selected(), state.scroll_offset()), (0, 0));
    state.move_up();
    assert_eq!((state.selected(), state.scroll_offset()), (0, 0));
    state.adjust_scroll();
    state.adjust_scroll_for_height(3);
    assert_eq!((state.selected(), state.scroll_offset()), (0, 0));
    state.toggle_section(&two_locales());
    assert!(state.is_empty());
    assert_eq!(state.execute_selected(&two_locales()), Action::NoOp);
    assert!(state.is_empty());
}

#[test]
fn moving_on_a_single_row_stays_on_it() {
    let locales = vec![pair("C.UTF-8", "C (POSIX)")];
    let mut state = AppState::new();
    state.toggle_section(&locales);
    state.build_menu(&locales);
    move_to(&mut state, 0);
    state.execute_selected(&locales);
    assert_eq!(labels(&state), vec!["▶ System Locales"]);
    state.move_down();
    assert_eq!(state.selected(), 0);
    state.move_up();
    assert_eq!(state.selected(), 0);
}

#[test]
fn the_cursor_wraps_around() {
    let mut state = state_with(&two_locales());
    state.move_up();
    assert_eq!(state.selected(), 5);
    state.move_down();
    assert_eq!(state.selected(), 0);
    state.move_down();
    assert_eq!(state.selected(), 1);
    state.move_up();
    assert_eq!(state.selected(), 0);
}

#[test]
fn moving_down_once_for_each_row_returns_to_the_start() {
    for n in [1usize, 2, 5, 14, 30] {
        let mut state = state_with(&many_locales(n));
        for start in 0..state.len() {
            move_to(&mut state, start);
            for _ in 0..state.len() {
                state.move_down();
            }
            assert_eq!(state.selected(), start);
        }
    }
}

#[test]
fn the_viewport_follows_the_cursor() {
    let mut state = state_with(&many_locales(24));
    assert_eq!(state.len(), 25);
    for expected in 1..=9 {
        state.move_down();
        assert_eq!((state.selected(), state.scroll_offset()), (expected, 0));
    }
    state.move_down();
    assert_eq!((state.selected(), state.scroll_offset()), (10, 1));
    state.move_down();
    assert_eq!((state.selected(), state.scroll_offset()), (11, 2));
    state.move_up();
    assert_eq!((state.selected(), state.scroll_offset()), (10, 1));
    state.adjust_scroll_for_height(3);
    assert_eq!((state.selected(), state.scroll_offset()), (10, 8));
    state.adjust_scroll_for_height(3);
    assert_eq!(state.scroll_offset(), 8);
    state.adjust_scroll_for_height(40);
    assert_eq!(state.scroll_offset(), 0);
    state.move_up();
    state.move_up();
    assert_eq!((state.selected(), state.scroll_offset()), (8, 0));
}

#[test]
fn wrapping_upwards_scrolls_to_the_end() {
    let mut state = state_with(&many_locales(24));
    state.move_up();
    assert_eq!((state.selected(), state.scroll_offset()), (24, 15));
    state.move_down();
    assert_eq!((state.selected(), state.scroll_offset()), (0, 0));
}

#[test]
fn the_first_visible_row_is_the_least_that_shows_the_cursor() {
    let mut state = state_with(&many_locales(19));
    assert_eq!(state.len(), 20);
    for _ in 0..3 {
        state.move_down();
    }
    state.adjust_scroll_for_height(2);
    assert_eq!((state.selected(), state.scroll_offset()), (3, 2));
    state.adjust_scroll_for_height(5);
    assert_eq!((state.selected(), state.scroll_offset()), (3, 0));
    for visible in 1..30usize {
        state.adjust_scroll_for_height(visible);
        let offset = state.scroll_offset();
        assert!(offset == 0 || state.selected() >= (offset - 1) + visible);
    }
}

#[test]
fn an_earlier_fitting_leaves_no_trace() {
    for visible in [1usize, 3, 7, 25] {
        let mut measured = state_with(&many_locales(19));
        let mut assumed = state_with(&many_locales(19));
        for _ in 0..14 {
            measured.move_down();
            measured.adjust_scroll_for_height(visible);
            assumed.move_down();
            assumed.adjust_scroll();
            assumed.adjust_scroll_for_height(visible);
            assert_eq!(assumed.scroll_offset(), measured.scroll_offset());
        }
    }
}

#[test]
fn a_viewport_without_room_leaves_the_offset() {
    let mut state = state_with(&many_locales(24));
    for _ in 0..12 {
        state.move_down();
    }
    let before = state.scroll_offset();
    assert_eq!(before, 3);
    state.adjust_scroll_for_height(0);
    assert_eq!(state.scroll_offset(), before);
    assert_eq!(state.selected(), 12);
}

#[test]
fn after_fitting_the_cursor_is_in_view() {
    let mut state = state_with(&many_locales(17));
    for visible in [1usize, 2, 3, 7, 10, 18, 100] {
        for _ in 0..state.len() {
            state.move_down();
            state.adjust_scroll_for_height(visible);
            let once = state.scroll_offset();
            assert!(once <= state.selected());
            assert!(state.selected() < once + visible);
            state.adjust_scroll_for_height(visible);
            assert_eq!(state.scroll_offset(), once);
        }
    }
}

#[test]
fn the_scroll_formula_has_its_exact_values() {
    assert_eq!(clamp_scroll(0, 0, 0, 10), 0);
    assert_eq!(clamp_scroll(10, 0, 25, 10), 1);
    assert_eq!(clamp_scroll(24, 0, 25, 10), 15);
    assert_eq!(clamp_scroll(3, 7, 25, 10), 0);
    assert_eq!(clamp_scroll(12, 7, 25, 10), 3);
    assert_eq!(clamp_scroll(3, 2, 20, 5), 0);
    assert_eq!(clamp_scroll(4, 2, 20, 5), 0);
    assert_eq!(clamp_scroll(5, 0, 20, 5), 1);
    assert_eq!(clamp_scroll(19, 0, 20, 5), 15);
    assert_eq!(clamp_scroll(5, 3, 6, 10), 0);
    assert_eq!(clamp_scroll(5, 3, 6, 0), 3);
    assert_eq!(clamp_scroll(20, 18, 25, 5), 16);
    assert_eq!(clamp_scroll(24, 22, 25, 5), 20);
    assert_eq!(clamp_scroll(usize::MAX, 0, usize::MAX, 1), usize::MAX - 1);
    assert_eq!(clamp_scroll(5, 0, 10, usize::MAX), 0);
    assert_eq!(DEFAULT_VISIBLE_ITEMS, 10);
}

#[test]
fn toggling_the_keyboard_header_collapses_its_group() {
    let mut state = state_with(&two_locales());
    state.toggle_section(&two_locales());
    assert!(!state.keyboard_section_expanded());
    assert!(state.locale_section_expanded());
    assert_eq!(
        labels(&state),
        vec![
            "▶ Keyboard Layouts",
            "▼ System Locales",
            "● English (US)",
            "  Danish (Denmark)",
        ]
    );
    assert_eq!(state.selected(), 0);
}

#[test]
fn collapsing_the_locale_header_keeps_the_cursor_on_it() {
    let mut state = state_with(&two_locales());
    move_to(&mut state, 4);
    assert_eq!(state.menu_items()[state.selected()].kind(), EntryKind::Leaf);
    state.move_up();
    assert_eq!(state.selected(), 3);
    state.toggle_section(&two_locales());
    assert_eq!(
        labels(&state),
        vec![
            "▼ Keyboard Layouts",
            "  Danish (Denmark)",
            "● English (US)",
            "▶ System Locales",
        ]
    );
    assert_eq!(state.selected(), 3);
    assert_eq!(
        state.menu_items()[state.selected()].kind(),
        EntryKind::GroupHeader(Group::Locale)
    );
}

#[test]
fn the_cursor_follows_the_header_to_its_new_index() {
    let mut state = state_with(&two_locales());
    move_to(&mut state, 3);
    let more = vec![
        pair("en_US.UTF-8", "English (US)"),
        pair("da_DK.UTF-8", "Danish (Denmark)"),
        pair("fr_FR.UTF-8", "French (France)"),
    ];
    state.toggle_section(&more);
    assert_eq!(state.len(), 5);
    assert_eq!(state.selected(), 4);
    assert_eq!(state.menu_items()[4].label, "▶ System Locales");
    let fewer = vec![pair("C.UTF-8", "C (POSIX)")];
    state.toggle_section(&fewer);
    assert_eq!(labels(&state), vec!["▼ System Locales", "  C (POSIX)"]);
    assert_eq!(state.selected(), 0);
}

#[test]
fn a_toggle_onto_an_empty_list_resets_the_cursor() {
    let mut state = state_with(&two_locales());
    move_to(&mut state, 3);
    state.toggle_section(&Vec::new());
    assert!(state.is_empty());
    assert_eq!((state.selected(), state.scroll_offset()), (0, 0));
    assert!(!state.locale_section_expanded());
}

#[test]
fn toggling_on_a_leaf_changes_no_row() {
    let mut state = state_with(&two_locales());
    move_to(&mut state, 1);
    let before: Vec<MenuItem> = state.menu_items().clone();
    state.toggle_section(&Vec::new());
    assert_eq!(state.menu_items(), &before);
    assert_eq!(state.selected(), 1);
    assert!(state.keyboard_section_expanded());
}

#[test]
fn toggling_twice_restores_the_rows() {
    for header in [0usize, 3] {
        let mut state = state_with(&two_locales());
        move_to(&mut state, header);
        let before: Vec<MenuItem> = state.menu_items().clone();
        state.toggle_section(&two_locales());
        assert_ne!(state.menu_items(), &before);
        state.toggle_section(&two_locales());
        assert_eq!(state.menu_items(), &before);
        assert_eq!(state.selected(), header);
        assert!(state.keyboard_section_expanded());
        assert!(state.locale_section_expanded());
    }
}

#[test]
fn toggling_twice_from_collapsed_restores_the_rows() {
    let mut state = state_with(&two_locales());
    state.toggle_section(&two_locales());
    state.move_down();
    state.toggle_section(&two_locales());
    let before: Vec<MenuItem> = state.menu_items().clone();
    assert_eq!(labels(&state), vec!["▶ Keyboard Layouts", "▶ System Locales"]);
    for header in [0usize, 1] {
        move_to(&mut state, header);
        state.toggle_section(&two_locales());
        assert_eq!(state.len(), 4);
        state.toggle_section(&two_locales());
        assert_eq!(state.menu_items(), &before);
        assert_eq!(state.selected(), header);
    }
}

#[test]
fn activating_a_header_toggles_it() {
    let mut state = state_with(&two_locales());
    assert_eq!(state.execute_selected(&two_locales()), Action::NoOp);
    assert!(!state.keyboard_section_expanded());
    assert_eq!(state.len(), 4);
    assert_eq!(state.execute_selected(&two_locales()), Action::NoOp);
    assert!(state.keyboard_section_expanded());
    assert_eq!(state.len(), 6);
}

#[test]
fn activating_a_leaf_hands_back_its_action() {
    let mut state = state_with(&two_locales());
    let before: Vec<MenuItem> = state.menu_items().clone();
    move_to(&mut state, 1);
    assert_eq!(
        state.execute_selected(&Vec::new()),
        Action::ApplyLayout("dk".to_string())
    );
    move_to(&mut state, 5);
    assert_eq!(
        state.execute_selected(&Vec::new()),
        Action::ApplyLocale("da_DK.UTF-8".to_string())
    );
    assert_eq!(state.menu_items(), &before);
    assert_eq!(state.selected(), 5);
}

#[test]
fn collapse_acts_on_expanded_headers_only() {
    let mut state = state_with(&two_locales());
    move_to(&mut state, 2);
    assert!(!state.on_expanded_header());
    state.collapse_selected(&two_locales());
    assert_eq!(state.len(), 6);
    move_to(&mut state, 3);
    assert!(state.on_expanded_header());
    state.collapse_selected(&two_locales());
    assert_eq!(state.len(), 4);
    assert!(!state.locale_section_expanded());
    assert!(!state.on_expanded_header());
    state.collapse_selected(&two_locales());
    assert_eq!(state.len(), 4);
    assert!(!state.locale_section_expanded());
    assert!(!AppState::new().on_expanded_header());
}

#[test]
fn a_refresh_keeps_the_cursor_index() {
    let mut state = state_with(&two_locales());
    move_to(&mut state, 4);
    state.refresh("dk".to_string(), "da_DK.UTF-8".to_string(), &two_locales());
    assert_eq!(state.selected(), 4);
    assert_eq!(state.current_layout(), "dk");
    assert_eq!(state.menu_items()[1].label, "● Danish (Denmark)");
    assert_eq!(state.menu_items()[5].label, "● Danish (Denmark)");
    assert_eq!(state.menu_items()[0].description, "Current: dk");
    assert_eq!(state.menu_items()[3].description, "Current: da_DK.UTF-8");
}

#[test]
fn a_refresh_onto_a_shorter_list_keeps_the_cursor_index() {
    let mut state = state_with(&many_locales(24));
    state.move_up();
    assert_eq!((state.selected(), state.scroll_offset()), (24, 15));
    state.refresh("us".to_string(), "C".to_string(), &two_locales());
    assert_eq!(state.len(), 6);
    assert_eq!((state.selected(), state.scroll_offset()), (24, 15));
    assert!(!state.cursor_in_list());
    assert!(!state.window_in_list());
    state.adjust_scroll_for_height(0);
    assert_eq!((state.selected(), state.scroll_offset()), (24, 15));
    state.adjust_scroll_for_height(4);
    assert_eq!((state.selected(), state.scroll_offset()), (24, 2));
    assert!(state.window_in_list());
    assert!(!state.cursor_in_list());
    state.move_up();
    assert_eq!((state.selected(), state.scroll_offset()), (23, 0));
    assert!(!state.cursor_in_list());
    state.move_down();
    assert_eq!((state.selected(), state.scroll_offset()), (0, 0));
    assert!(state.cursor_in_list());
}

#[test]
fn a_rebuild_replaces_the_rows_only() {
    let mut state = state_with(&two_locales());
    move_to(&mut state, 5);
    state.adjust_scroll_for_height(2);
    assert_eq!((state.selected(), state.scroll_offset()), (5, 4));
    state.build_menu(&vec![pair("C.UTF-8", "C (POSIX)")]);
    assert_eq!(labels(&state), vec!["▼ System Locales", "  C (POSIX)"]);
    assert_eq!((state.selected(), state.scroll_offset()), (5, 4));
    assert!(state.keyboard_section_expanded());
    assert!(state.locale_section_expanded());
    assert_eq!(state.current_layout(), "us");
    assert_eq!(state.current_locale(), "en_US.UTF-8");
    assert!(!state.cursor_in_list());
    state.build_menu(&many_locales(9));
    assert_eq!(state.len(), 10);
    assert_eq!((state.selected(), state.scroll_offset()), (5, 4));
    assert!(state.cursor_in_list());
}

#[test]
fn a_rebuild_onto_an_empty_list_resets_the_cursor() {
    let mut state = state_with(&many_locales(24));
    state.move_up();
    assert_eq!((state.selected(), state.scroll_offset()), (24, 15));
    state.build_menu(&Vec::new());
    assert!(state.is_empty());
    assert_eq!((state.selected(), state.scroll_offset()), (0, 0));
    assert!(state.cursor_in_list());
    assert!(state.window_in_list());
    state.move_up();
    state.move_down();
    assert_eq!((state.selected(), state.scroll_offset()), (0, 0));
}

#[test]
fn the_cursor_names_a_row_after_every_move_on_a_list_that_stays() {
    let mut state = state_with(&two_locales());
    assert!(state.cursor_in_list());
    for _ in 0..8 {
        state.move_down();
        assert!(state.cursor_in_list());
        assert!(state.window_in_list());
    }
    for _ in 0..8 {
        state.move_up();
        assert!(state.cursor_in_list());
    }
    assert!(AppState::new().cursor_in_list());
    assert!(AppState::new().window_in_list());
}
