//! Locale codes: their parts, the keyboard layout a locale stands for, and
//! the name a locale is shown under.

use crate::seqs::{lemma_first_where, lemma_prefix_step};
use crate::text::{
    find_char, first_index_of, is_char, lines, lines_of, lines_view, starts_with, str_eq,
    to_uppercase, trim, trimmed, uppercase_of,
};
use vstd::prelude::*;

verus! {

/// A list of options as plain values: each a code and the name shown for it.
pub type Options = Seq<(Seq<char>, Seq<char>)>;

/// The plain values held by a vector of (code, name) pairs.
pub open spec fn options_view(v: Seq<(String, String)>) -> Options {
    Seq::new(v.len(), |i: int| (v[i].0@, v[i].1@))
}

/// The part of a locale code before its first `.` (the whole code where it
/// has none): `en_US` of `en_US.UTF-8`.
pub open spec fn language_country(code: Seq<char>) -> Seq<char> {
    code.subrange(0, first_index_of(code, '.'))
}

/// Whether the language-and-country part holds the `_` that parts the two.
pub open spec fn has_country(lang_country: Seq<char>) -> bool {
    first_index_of(lang_country, '_') < lang_country.len()
}

/// The language subtag: what stands before the first `_`.
pub open spec fn language_of(lang_country: Seq<char>) -> Seq<char> {
    lang_country.subrange(0, first_index_of(lang_country, '_'))
}

/// The country subtag: what stands behind the first `_`.
pub open spec fn country_of(lang_country: Seq<char>) -> Seq<char>
    recommends
        has_country(lang_country),
{
    lang_country.subrange(first_index_of(lang_country, '_') + 1, lang_country.len() as int)
}

/// The fixed table from a language (and, for Portuguese, a country) to the
/// code of a keyboard layout.
pub open spec fn layout_for_language(lang: Seq<char>, country: Seq<char>) -> Option<Seq<char>> {
    if lang == "en"@ {
        Some("us"@)
    } else if lang == "da"@ {
        Some("dk"@)
    } else if lang == "de"@ {
        Some("de"@)
    } else if lang == "es"@ {
        Some("es"@)
    } else if lang == "fr"@ {
        Some("fr"@)
    } else if lang == "zh"@ {
        Some("cn"@)
    } else if lang == "ja"@ {
        Some("jp"@)
    } else if lang == "ko"@ {
        Some("kr"@)
    } else if lang == "ru"@ {
        Some("ru"@)
    } else if lang == "it"@ {
        Some("it"@)
    } else if lang == "pt"@ {
        if country == "BR"@ {
            Some("br"@)
        } else {
            Some("pt"@)
        }
    } else if lang == "nl"@ {
        Some("nl"@)
    } else if lang == "sv"@ {
        Some("se"@)
    } else if lang == "no"@ {
        Some("no"@)
    } else if lang == "fi"@ {
        Some("fi"@)
    } else if lang == "pl"@ {
        Some("pl"@)
    } else if lang == "cs"@ {
        Some("cz"@)
    } else if lang == "hu"@ {
        Some("hu"@)
    } else if lang == "tr"@ {
        Some("tr"@)
    } else if lang == "ar"@ {
        Some("ara"@)
    } else if lang == "hi"@ {
        Some("in"@)
    } else if lang == "th"@ {
        Some("th"@)
    } else if lang == "vi"@ {
        Some("vn"@)
    } else {
        None
    }
}

/// The keyboard layout that a locale code stands for: none where the code
/// has no `_` between language and country (the bare `C` locale among them)
/// or where the table does not hold its language.
pub open spec fn keyboard_layout_of(code: Seq<char>) -> Option<Seq<char>> {
    let lc = language_country(code);
    if has_country(lc) {
        layout_for_language(language_of(lc), country_of(lc))
    } else {
        None
    }
}

/// Whether an optional string holds exactly the optional characters.
pub open spec fn opt_str_is(r: Option<String>, expected: Option<Seq<char>>) -> bool {
    match expected {
        Some(chars) => r matches Some(s) && s@ == chars,
        None => r is None,
    }
}

/// Looks a language up in the table of layouts.
pub fn layout_code_for(lang: &str, country: &str) -> (r: Option<String>)
    ensures
        opt_str_is(r, layout_for_language(lang@, country@)),
{
    if str_eq(lang, "en") {
        Some("us".to_owned())
    } else if str_eq(lang, "da") {
        Some("dk".to_owned())
    } else if str_eq(lang, "de") {
        Some("de".to_owned())
    } else if str_eq(lang, "es") {
        Some("es".to_owned())
    } else if str_eq(lang, "fr") {
        Some("fr".to_owned())
    } else if str_eq(lang, "zh") {
        Some("cn".to_owned())
    } else if str_eq(lang, "ja") {
        Some("jp".to_owned())
    } else if str_eq(lang, "ko") {
        Some("kr".to_owned())
    } else if str_eq(lang, "ru") {
        Some("ru".to_owned())
    } else if str_eq(lang, "it") {
        Some("it".to_owned())
    } else if str_eq(lang, "pt") {
        if str_eq(country, "BR") {
            Some("br".to_owned())
        } else {
            Some("pt".to_owned())
        }
    } else if str_eq(lang, "nl") {
        Some("nl".to_owned())
    } else if str_eq(lang, "sv") {
        Some("se".to_owned())
    } else if str_eq(lang, "no") {
        Some("no".to_owned())
    } else if str_eq(lang, "fi") {
        Some("fi".to_owned())
    } else if str_eq(lang, "pl") {
        Some("pl".to_owned())
    } else if str_eq(lang, "cs") {
        Some("cz".to_owned())
    } else if str_eq(lang, "hu") {
        Some("hu".to_owned())
    } else if str_eq(lang, "tr") {
        Some("tr".to_owned())
    } else if str_eq(lang, "ar") {
        Some("ara".to_owned())
    } else if str_eq(lang, "hi") {
        Some("in".to_owned())
    } else if str_eq(lang, "th") {
        Some("th".to_owned())
    } else if str_eq(lang, "vi") {
        Some("vn".to_owned())
    } else {
        None
    }
}

/// The keyboard layout for a locale code such as `pt_BR.UTF-8`.
pub fn locale_to_keyboard_layout(locale_code: &str) -> (r: Option<String>)
    ensures
        opt_str_is(r, keyboard_layout_of(locale_code@)),
{
    let dot: usize = find_char(locale_code, '.');
    proof {
        lemma_first_where(locale_code@, is_char('.'));
    }
    let lang_country = locale_code.substring_char(0, dot);
    let sep: usize = find_char(lang_country, '_');
    let len: usize = lang_country.unicode_len();
    proof {
        lemma_first_where(lang_country@, is_char('_'));
    }
    if sep < len {
        let lang = lang_country.substring_char(0, sep);
        let country = lang_country.substring_char(sep + 1, len);
        layout_code_for(lang, country)
    } else {
        None
    }
}

/// The names of the locales that are known by name: the two spellings of the
/// `C` locale exactly, the others by the language and country they begin with.
pub open spec fn known_display_name(code: Seq<char>) -> Option<Seq<char>> {
    if code == "C"@ || code == "C.UTF-8"@ {
        Some("C (POSIX)"@)
    } else if "en_US"@.is_prefix_of(code) {
        Some("English (US)"@)
    } else if "en_GB"@.is_prefix_of(code) {
        Some("English (UK)"@)
    } else if "da_DK"@.is_prefix_of(code) {
        Some("Danish (Denmark)"@)
    } else if "de_DE"@.is_prefix_of(code) {
        Some("German (Germany)"@)
    } else if "es_US"@.is_prefix_of(code) {
        Some("Spanish (US)"@)
    } else if "es_ES"@.is_prefix_of(code) {
        Some("Spanish (Spain)"@)
    } else if "fr_FR"@.is_prefix_of(code) {
        Some("French (France)"@)
    } else if "zh_CN"@.is_prefix_of(code) {
        Some("Chinese (Simplified)"@)
    } else if "zh_TW"@.is_prefix_of(code) {
        Some("Chinese (Traditional)"@)
    } else if "ja_JP"@.is_prefix_of(code) {
        Some("Japanese (Japan)"@)
    } else if "ko_KR"@.is_prefix_of(code) {
        Some("Korean (Korea)"@)
    } else if "ru_RU"@.is_prefix_of(code) {
        Some("Russian (Russia)"@)
    } else if "it_IT"@.is_prefix_of(code) {
        Some("Italian (Italy)"@)
    } else if "pt_BR"@.is_prefix_of(code) {
        Some("Portuguese (Brazil)"@)
    } else if "pt_PT"@.is_prefix_of(code) {
        Some("Portuguese (Portugal)"@)
    } else if "nl_NL"@.is_prefix_of(code) {
        Some("Dutch (Netherlands)"@)
    } else if "sv_SE"@.is_prefix_of(code) {
        Some("Swedish (Sweden)"@)
    } else if "no_NO"@.is_prefix_of(code) {
        Some("Norwegian (Norway)"@)
    } else if "fi_FI"@.is_prefix_of(code) {
        Some("Finnish (Finland)"@)
    } else if "pl_PL"@.is_prefix_of(code) {
        Some("Polish (Poland)"@)
    } else if "cs_CZ"@.is_prefix_of(code) {
        Some("Czech (Czech Republic)"@)
    } else if "hu_HU"@.is_prefix_of(code) {
        Some("Hungarian (Hungary)"@)
    } else if "tr_TR"@.is_prefix_of(code) {
        Some("Turkish (Turkey)"@)
    } else if "ar_SA"@.is_prefix_of(code) {
        Some("Arabic (Saudi Arabia)"@)
    } else if "hi_IN"@.is_prefix_of(code) {
        Some("Hindi (India)"@)
    } else if "th_TH"@.is_prefix_of(code) {
        Some("Thai (Thailand)"@)
    } else if "vi_VN"@.is_prefix_of(code) {
        Some("Vietnamese (Vietnam)"@)
    } else {
        None
    }
}

/// A language and a country written as `LANGUAGE (COUNTRY)`.
pub open spec fn language_with_country(language: Seq<char>, country: Seq<char>) -> Seq<char> {
    language + " ("@ + country + ")"@
}

/// The name of a locale that is not known by name: its language and country
/// in upper case, or the whole part before the `.` in upper case where it
/// has no country.
pub open spec fn fallback_display_name(code: Seq<char>) -> Seq<char> {
    let lc = language_country(code);
    if has_country(lc) {
        language_with_country(uppercase_of(language_of(lc)), uppercase_of(country_of(lc)))
    } else {
        uppercase_of(lc)
    }
}

/// The name a locale is shown under.
pub open spec fn display_name_of(code: Seq<char>) -> Seq<char> {
    match known_display_name(code) {
        Some(name) => name,
        None => fallback_display_name(code),
    }
}

/// Looks a locale code up among the locales known by name.
pub fn known_name(code: &str) -> (r: Option<String>)
    ensures
        opt_str_is(r, known_display_name(code@)),
{
    if str_eq(code, "C") || str_eq(code, "C.UTF-8") {
        Some("C (POSIX)".to_owned())
    } else if starts_with(code, "en_US") {
        Some("English (US)".to_owned())
    } else if starts_with(code, "en_GB") {
        Some("English (UK)".to_owned())
    } else if starts_with(code, "da_DK") {
        Some("Danish (Denmark)".to_owned())
    } else if starts_with(code, "de_DE") {
        Some("German (Germany)".to_owned())
    } else if starts_with(code, "es_US") {
        Some("Spanish (US)".to_owned())
    } else if starts_with(code, "es_ES") {
        Some("Spanish (Spain)".to_owned())
    } else if starts_with(code, "fr_FR") {
        Some("French (France)".to_owned())
    } else if starts_with(code, "zh_CN") {
        Some("Chinese (Simplified)".to_owned())
    } else if starts_with(code, "zh_TW") {
        Some("Chinese (Traditional)".to_owned())
    } else if starts_with(code, "ja_JP") {
        Some("Japanese (Japan)".to_owned())
    } else if starts_with(code, "ko_KR") {
        Some("Korean (Korea)".to_owned())
    } else if starts_with(code, "ru_RU") {
        Some("Russian (Russia)".to_owned())
    } else if starts_with(code, "it_IT") {
        Some("Italian (Italy)".to_owned())
    } else if starts_with(code, "pt_BR") {
        Some("Portuguese (Brazil)".to_owned())
    } else if starts_with(code, "pt_PT") {
        Some("Portuguese (Portugal)".to_owned())
    } else if starts_with(code, "nl_NL") {
        Some("Dutch (Netherlands)".to_owned())
    } else if starts_with(code, "sv_SE") {
        Some("Swedish (Sweden)".to_owned())
    } else if starts_with(code, "no_NO") {
        Some("Norwegian (Norway)".to_owned())
    } else if starts_with(code, "fi_FI") {
        Some("Finnish (Finland)".to_owned())
    } else if starts_with(code, "pl_PL") {
        Some("Polish (Poland)".to_owned())
    } else if starts_with(code, "cs_CZ") {
        Some("Czech (Czech Republic)".to_owned())
    } else if starts_with(code, "hu_HU") {
        Some("Hungarian (Hungary)".to_owned())
    } else if starts_with(code, "tr_TR") {
        Some("Turkish (Turkey)".to_owned())
    } else if starts_with(code, "ar_SA") {
        Some("Arabic (Saudi Arabia)".to_owned())
    } else if starts_with(code, "hi_IN") {
        Some("Hindi (India)".to_owned())
    } else if starts_with(code, "th_TH") {
        Some("Thai (Thailand)".to_owned())
    } else if starts_with(code, "vi_VN") {
        Some("Vietnamese (Vietnam)".to_owned())
    } else {
        None
    }
}

/// Writes a language and a country as `LANGUAGE (COUNTRY)`.
pub fn join_language_country(language: &str, country: &str) -> (r: String)
    ensures
        r@ == language_with_country(language@, country@),
{
    let mut name = language.to_owned();
    name.append(" (");
    name.append(country);
    name.append(")");
    name
}

/// The name a locale is shown under: its known name, or else its language
/// and country in upper case.
pub fn locale_code_to_display_name(locale_code: &str) -> (r: String)
    ensures
        r@ == display_name_of(locale_code@),
{
    match known_name(locale_code) {
        Some(name) => name,
        None => {
            let dot: usize = find_char(locale_code, '.');
            proof {
                lemma_first_where(locale_code@, is_char('.'));
            }
            let lang_country = locale_code.substring_char(0, dot);
            let sep: usize = find_char(lang_country, '_');
            let len: usize = lang_country.unicode_len();
            proof {
                lemma_first_where(lang_country@, is_char('_'));
            }
            if sep < len {
                let lang = to_uppercase(lang_country.substring_char(0, sep));
                let country = to_uppercase(lang_country.substring_char(sep + 1, len));
                join_language_country(lang.as_str(), country.as_str())
            } else {
                to_uppercase(lang_country)
            }
        },
    }
}

/// The locales offered where the system names none.
pub open spec fn fallback_locales() -> Options {
    seq![("en_US.UTF-8"@, "English (US)"@), ("C.UTF-8"@, "C (POSIX)"@)]
}

/// The locales that a listing names: one for each line that holds more than
/// white space, in the order of the lines, with the line's code stripped of
/// white space at its ends and the name the code is shown under.
pub open spec fn listed_locales(lines: Seq<Seq<char>>) -> Options
    decreases lines.len(),
{
    if lines.len() == 0 {
        Seq::empty()
    } else {
        let rest = listed_locales(lines.drop_last());
        let code = trimmed(lines.last());
        if code.len() == 0 {
            rest
        } else {
            rest.push((code, display_name_of(code)))
        }
    }
}

/// The listed locales, or the fallback where none is listed.
pub open spec fn locales_or_fallback(listed: Options) -> Options {
    if listed.len() == 0 {
        fallback_locales()
    } else {
        listed
    }
}

/// The locales on offer for the lines of a listing of the system's locales.
pub open spec fn available_locales(lines: Seq<Seq<char>>) -> Options {
    locales_or_fallback(listed_locales(lines))
}

/// The list of locales on offer is never empty.
pub proof fn lemma_locales_never_empty(listed: Options)
    ensures
        locales_or_fallback(listed).len() > 0,
        listed.len() == 0 ==> locales_or_fallback(listed) == fallback_locales(),
        listed.len() > 0 ==> locales_or_fallback(listed) == listed,
{
}

/// The listed locales as they are, or the two fallback locales where the
/// list is empty.
pub fn locales_or_default(listed: Vec<(String, String)>) -> (locales: Vec<(String, String)>)
    ensures
        options_view(locales@) == locales_or_fallback(options_view(listed@)),
        locales@.len() > 0,
{
    if listed.len() > 0 {
        return listed;
    }
    let mut locales: Vec<(String, String)> = Vec::new();
    locales.push(("en_US.UTF-8".to_owned(), "English (US)".to_owned()));
    locales.push(("C.UTF-8".to_owned(), "C (POSIX)".to_owned()));
    assert(options_view(locales@) =~= fallback_locales());
    locales
}

/// The locales that the lines of a listing name.
pub fn locales_from_lines(lines: &Vec<String>) -> (listed: Vec<(String, String)>)
    ensures
        options_view(listed@) == listed_locales(lines_view(lines@)),
{
    let ghost all = lines_view(lines@);
    let mut listed: Vec<(String, String)> = Vec::new();
    let n: usize = lines.len();
    let mut i: usize = 0;
    assert(all.subrange(0, 0) =~= Seq::empty());
    assert(options_view(listed@) =~= Seq::empty());
    while i < n
        invariant
            n == lines@.len(),
            i <= n,
            all == lines_view(lines@),
            options_view(listed@) == listed_locales(all.subrange(0, i as int)),
        decreases n - i,
    {
        proof {
            lemma_prefix_step(all, i as int);
        }
        let code = trim(lines[i].as_str());
        if !code.is_empty() {
            let ghost before = options_view(listed@);
            let name = locale_code_to_display_name(code);
            listed.push((code.to_owned(), name));
            assert(options_view(listed@) =~= before.push((code@, display_name_of(code@))));
        }
        i += 1;
    }
    assert(all.subrange(0, n as int) =~= all);
    listed
}

/// The locales on offer, from what the system's listing of its locales
/// printed: each line that is not blank gives a locale; a listing without
/// such a line gives the two fallback locales.
pub fn get_available_locales(listing: &str) -> (locales: Vec<(String, String)>)
    ensures
        options_view(locales@) == available_locales(lines_of(listing@)),
        locales@.len() > 0,
{
    let all = lines(listing);
    locales_or_default(locales_from_lines(&all))
}

} // verus!
