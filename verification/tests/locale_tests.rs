use levocale::layouts::get_available_keyboard_layouts;
use levocale::locale::{
    get_available_locales, join_language_country, known_name, layout_code_for,
    locale_code_to_display_name, locale_to_keyboard_layout, locales_from_lines,
    locales_or_default,
};
use levocale::text::{
    find_char, find_str, matches_at, second_field, starts_with, str_eq, str_less, strip_char,
};

fn pair(code: &str, name: &str) -> (String, String) {
    (code.to_string(), name.to_string())
}

fn layout(code: &str) -> Option<String> {
    locale_to_keyboard_layout(code)
}

#[test]
fn brazilian_portuguese_has_its_own_layout() {
    assert_eq!(layout("pt_BR.UTF-8"), Some("br".to_string()));
}

#[test]
fn other_portuguese_uses_the_portuguese_layout() {
    assert_eq!(layout("pt_PT.UTF-8"), Some("pt".to_string()));
    assert_eq!(layout("pt_AO"), Some("pt".to_string()));
    assert_eq!(layout("pt_br.UTF-8"), Some("pt".to_string()));
}

#[test]
fn the_c_locale_has_no_layout() {
    assert_eq!(layout("C"), None);
    assert_eq!(layout("C.UTF-8"), None);
    assert_eq!(layout("POSIX"), None);
}

#[test]
fn every_language_of_the_table_maps_to_its_layout() {
    let table = [
        ("en", "us"),
        ("da", "dk"),
        ("de", "de"),
        ("es", "es"),
        ("fr", "fr"),
        ("zh", "cn"),
        ("ja", "jp"),
        ("ko", "kr"),
        ("ru", "ru"),
        ("it", "it"),
        ("nl", "nl"),
        ("sv", "se"),
        ("no", "no"),
        ("fi", "fi"),
        ("pl", "pl"),
        ("cs", "cz"),
        ("hu", "hu"),
        ("tr", "tr"),
        ("ar", "ara"),
        ("hi", "in"),
        ("th", "th"),
        ("vi", "vn"),
    ];
    for (lang, expected) in table {
        let code = format!("{}_XX.UTF-8", lang);
        assert_eq!(layout(&code), Some(expected.to_string()));
        assert_eq!(layout_code_for(lang, "XX"), Some(expected.to_string()));
    }
}

#[test]
fn unknown_languages_have_no_layout() {
    assert_eq!(layout("xx_YY.UTF-8"), None);
    assert_eq!(layout("EN_US.UTF-8"), None);
    assert_eq!(layout_code_for("eng", "US"), None);
    assert_eq!(layout_code_for("", ""), None);
}

#[test]
fn a_code_without_separator_has_no_layout() {
    assert_eq!(layout("en"), None);
    assert_eq!(layout("en.UTF-8"), None);
    assert_eq!(layout(""), None);
    assert_eq!(layout("en.US_x"), None);
}

#[test]
fn the_language_ends_at_the_first_underscore() {
    assert_eq!(layout("en_US"), Some("us".to_string()));
    assert_eq!(layout("en_US_extra.UTF-8"), Some("us".to_string()));
    assert_eq!(layout("en_"), Some("us".to_string()));
    assert_eq!(layout("_en"), None);
    assert_eq!(layout("pt_BR_x"), Some("pt".to_string()));
}

#[test]
fn known_locales_have_their_names() {
    assert_eq!(locale_code_to_display_name("C"), "C (POSIX)");
    assert_eq!(locale_code_to_display_name("C.UTF-8"), "C (POSIX)");
    assert_eq!(locale_code_to_display_name("en_US.UTF-8"), "English (US)");
    assert_eq!(locale_code_to_display_name("en_GB.UTF-8"), "English (UK)");
    assert_eq!(locale_code_to_display_name("da_DK.UTF-8"), "Danish (Denmark)");
    assert_eq!(locale_code_to_display_name("zh_TW"), "Chinese (Traditional)");
    assert_eq!(locale_code_to_display_name("cs_CZ.ISO-8859-2"), "Czech (Czech Republic)");
    assert_eq!(locale_code_to_display_name("vi_VN"), "Vietnamese (Vietnam)");
    assert_eq!(locale_code_to_display_name("en_USA"), "English (US)");
}

#[test]
fn known_name_tells_known_from_unknown() {
    assert_eq!(known_name("pt_BR.UTF-8"), Some("Portuguese (Brazil)".to_string()));
    assert_eq!(known_name("pt_AO.UTF-8"), None);
    assert_eq!(known_name("C.utf8"), None);
    assert_eq!(known_name(""), None);
}

#[test]
fn unknown_locales_are_named_in_upper_case() {
    assert_eq!(locale_code_to_display_name("xx_yy.UTF-8"), "XX (YY)");
    assert_eq!(locale_code_to_display_name("pt_AO"), "PT (AO)");
    assert_eq!(locale_code_to_display_name("eo"), "EO");
    assert_eq!(locale_code_to_display_name("eo.UTF-8"), "EO");
    assert_eq!(locale_code_to_display_name("c"), "C");
    assert_eq!(locale_code_to_display_name(""), "");
    assert_eq!(locale_code_to_display_name("ab_"), "AB ()");
}

#[test]
fn language_and_country_are_joined_with_brackets() {
    assert_eq!(join_language_country("XX", "YY"), "XX (YY)");
    assert_eq!(join_language_country("", ""), " ()");
}

#[test]
fn layouts_are_sorted_by_code() {
    let locales = vec![
        pair("en_US.UTF-8", "English (US)"),
        pair("da_DK.UTF-8", "Danish (Denmark)"),
    ];
    let layouts = get_available_keyboard_layouts(&locales);
    assert_eq!(
        layouts,
        vec![pair("dk", "Danish (Denmark)"), pair("us", "English (US)")]
    );
}

#[test]
fn a_layout_keeps_the_name_of_its_first_locale() {
    let locales = vec![
        pair("en_GB.UTF-8", "English (UK)"),
        pair("de_DE.UTF-8", "German (Germany)"),
        pair("en_US.UTF-8", "English (US)"),
        pair("C.UTF-8", "C (POSIX)"),
        pair("de_AT.UTF-8", "DE (AT)"),
        pair("ar_SA.UTF-8", "Arabic (Saudi Arabia)"),
    ];
    let layouts = get_available_keyboard_layouts(&locales);
    assert_eq!(
        layouts,
        vec![
            pair("ara", "Arabic (Saudi Arabia)"),
            pair("de", "German (Germany)"),
            pair("us", "English (UK)"),
        ]
    );
}

#[test]
fn locales_without_layout_are_dropped() {
    let locales = vec![pair("C.UTF-8", "C (POSIX)"), pair("xx_YY", "XX (YY)")];
    assert!(get_available_keyboard_layouts(&locales).is_empty());
    assert!(get_available_keyboard_layouts(&Vec::new()).is_empty());
}

#[test]
fn portuguese_locales_give_two_layouts() {
    let locales = vec![
        pair("pt_PT.UTF-8", "Portuguese (Portugal)"),
        pair("pt_BR.UTF-8", "Portuguese (Brazil)"),
    ];
    assert_eq!(
        get_available_keyboard_layouts(&locales),
        vec![
            pair("br", "Portuguese (Brazil)"),
            pair("pt", "Portuguese (Portugal)"),
        ]
    );
}

#[test]
fn an_empty_listing_gives_the_fallback_locales() {
    let expected = vec![pair("en_US.UTF-8", "English (US)"), pair("C.UTF-8", "C (POSIX)")];
    assert_eq!(get_available_locales(""), expected);
    assert_eq!(get_available_locales("\n  \n\t\n"), expected);
    assert_eq!(locales_or_default(Vec::new()), expected);
    assert!(locales_from_lines(&Vec::new()).is_empty());
    let blank = vec!["".to_string(), "   ".to_string(), "\t".to_string()];
    assert!(locales_from_lines(&blank).is_empty());
}

#[test]
fn listed_locales_are_kept_as_they_are() {
    let listed = vec![pair("xx_YY", "anything")];
    assert_eq!(locales_or_default(listed.clone()), listed);
}

#[test]
fn a_listing_is_trimmed_and_named() {
    let expected = vec![
        pair("da_DK.UTF-8", "Danish (Denmark)"),
        pair("C.UTF-8", "C (POSIX)"),
        pair("xx_yy", "XX (YY)"),
    ];
    assert_eq!(
        get_available_locales("  da_DK.UTF-8 \n\nC.UTF-8\r\n\txx_yy\n"),
        expected
    );
    let lines = vec![
        "  da_DK.UTF-8 ".to_string(),
        "".to_string(),
        "C.UTF-8".to_string(),
        "\txx_yy\r".to_string(),
    ];
    assert_eq!(locales_from_lines(&lines), expected);
}

#[test]
fn a_listing_keeps_order_and_repeats() {
    assert_eq!(
        get_available_locales("en_US.UTF-8\nC\nen_US.UTF-8"),
        vec![
            pair("en_US.UTF-8", "English (US)"),
            pair("C", "C (POSIX)"),
            pair("en_US.UTF-8", "English (US)"),
        ]
    );
}

#[test]
fn strings_compare_by_their_characters() {
    assert!(str_eq("", ""));
    assert!(str_eq("abc", "abc"));
    assert!(!str_eq("abc", "abd"));
    assert!(!str_eq("abc", "ab"));
    assert!(str_eq("▼ é", "▼ é"));
    assert!(!str_eq("e", "é"));
}

#[test]
fn prefixes_are_recognised() {
    assert!(starts_with("en_US.UTF-8", "en_US"));
    assert!(starts_with("en_US", "en_US"));
    assert!(starts_with("anything", ""));
    assert!(!starts_with("en_U", "en_US"));
    assert!(!starts_with("xen_US", "en_US"));
}

#[test]
fn the_first_occurrence_of_a_character_is_found() {
    assert_eq!(find_char("en_US.UTF-8", '.'), 5);
    assert_eq!(find_char("a.b.c", '.'), 1);
    assert_eq!(find_char("abc", '.'), 3);
    assert_eq!(find_char("", '.'), 0);
    assert_eq!(find_char("é.", '.'), 1);
}

#[test]
fn strings_are_ordered_as_the_standard_library_orders_them() {
    let words = ["", "a", "ab", "abc", "b", "ba", "B", "ara", "us", "dk", "é", "z", "▼"];
    for a in words {
        for b in words {
            assert_eq!(str_less(a, b), a < b);
        }
    }
}

#[test]
fn occurrences_are_found_by_position() {
    assert!(matches_at("abcabc", "bc", 1));
    assert!(matches_at("abcabc", "bc", 4));
    assert!(!matches_at("abcabc", "bc", 0));
    assert!(!matches_at("abcabc", "bc", 5));
    assert!(!matches_at("abcabc", "bc", 6));
    assert!(!matches_at("abc", "bc", usize::MAX));
    assert!(matches_at("abc", "", 3));
    assert!(!matches_at("abc", "", 4));
    assert_eq!(find_str("abcabc", "bc"), 1);
    assert_eq!(find_str("abcabc", "ca"), 2);
    assert_eq!(find_str("abcabc", "cb"), 6);
    assert_eq!(find_str("abc", "abcd"), 3);
    assert_eq!(find_str("", "a"), 0);
    assert_eq!(find_str("aab", "ab"), 1);
    assert_eq!(find_str("é▼x", "x"), 2);
}

#[test]
fn the_second_field_lies_between_two_separators() {
    assert_eq!(second_field("a:b:c", ":"), Some("b"));
    assert_eq!(second_field("layout:     us", ":"), Some("     us"));
    assert_eq!(second_field("LANG=", "="), Some(""));
    assert_eq!(second_field("LANG", "="), None);
    assert_eq!(second_field("", "="), None);
    assert_eq!(second_field("=x", "="), Some("x"));
    assert_eq!(second_field("a==b", "="), Some(""));
    assert_eq!(
        second_field("\t\tactive keymap: English (US)", "active keymap:"),
        Some(" English (US)")
    );
    assert_eq!(second_field("x--y--z", "--"), Some("y"));
    assert_eq!(second_field("x---y", "--"), Some("-y"));
}

#[test]
fn surrounding_characters_are_stripped() {
    assert_eq!(strip_char("\"en_US.UTF-8\"", '"'), "en_US.UTF-8");
    assert_eq!(strip_char("en_US.UTF-8", '"'), "en_US.UTF-8");
    assert_eq!(strip_char("\"\"a\"b\"\"\"", '"'), "a\"b");
    assert_eq!(strip_char("\"\"\"", '"'), "");
    assert_eq!(strip_char("", '"'), "");
    assert_eq!(strip_char("x\"", '"'), "x");
    assert_eq!(strip_char("\"x", '"'), "x");
}
