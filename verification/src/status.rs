//! The layout and the locale now in force, read from what the system's
//! tools print. Each reader takes the text that a tool printed, or nothing
//! where the tool could not be run; none of them fails.

use crate::locale::opt_str_is;
use crate::seqs::lemma_rest_step;
use crate::text::{
    field_after, lines, lines_of, lines_view, second_field, starts_with, strip_char, trim,
    trimmed, without_surrounding,
};
use vstd::prelude::*;

verus! {

/// A text in which a value now in force can be found.
#[derive(Clone, Copy, PartialEq, Eq, Debug, Structural)]
pub enum Source {
    /// The listing of input devices that `hyprctl devices` prints.
    DeviceListing,
    /// The keyboard settings that `setxkbmap -query` prints.
    KeyboardQuery,
    /// The locale settings that `locale` prints.
    LocaleSettings,
    /// The status report that `localectl status` prints.
    StatusReport,
}

/// The value reported where nothing can be found out.
pub open spec fn unknown() -> Seq<char> {
    "unknown"@
}

/// The value that one line of a source names, if it names one.
///
/// A line of the device listing names a keymap where it holds
/// `active keymap:`: what follows that mark, up to the next such mark,
/// without white space at its ends. A line of the keyboard query names a
/// layout where it begins with `layout:`: what stands between the first
/// colon and the next, without white space at its ends. A line of the
/// locale settings names a locale where it begins with `LANG=`: what stands
/// between the first equals sign and the next, without the quotation marks
/// around it. A line of the status report names a locale where, white space
/// at its ends apart, it begins with `LANG=`: what stands between the first
/// equals sign of the line and the next, without white space at its ends.
pub open spec fn value_on_line(source: Source, line: Seq<char>) -> Option<Seq<char>> {
    match source {
        Source::DeviceListing => match field_after(line, "active keymap:"@) {
            Some(field) => Some(trimmed(field)),
            None => None,
        },
        Source::KeyboardQuery => if "layout:"@.is_prefix_of(line) {
            match field_after(line, ":"@) {
                Some(field) => Some(trimmed(field)),
                None => None,
            }
        } else {
            None
        },
        Source::LocaleSettings => if "LANG="@.is_prefix_of(line) {
            match field_after(line, "="@) {
                Some(field) => Some(without_surrounding(field, '"')),
                None => None,
            }
        } else {
            None
        },
        Source::StatusReport => if "LANG="@.is_prefix_of(trimmed(line)) {
            match field_after(line, "="@) {
                Some(field) => Some(trimmed(field)),
                None => None,
            }
        } else {
            None
        },
    }
}

/// The value that the first line names which names one.
pub open spec fn value_in_lines(source: Source, lines: Seq<Seq<char>>) -> Option<Seq<char>>
    decreases lines.len(),
{
    if lines.len() == 0 {
        None
    } else {
        match value_on_line(source, lines[0]) {
            Some(value) => Some(value),
            None => value_in_lines(source, lines.drop_first()),
        }
    }
}

/// The characters of a text that may be missing.
pub open spec fn opt_text(output: Option<&str>) -> Option<Seq<char>> {
    match output {
        Some(text) => Some(text@),
        None => None,
    }
}

/// The value that a text names which may be missing: none where it is
/// missing.
pub open spec fn value_in_text(source: Source, output: Option<Seq<char>>) -> Option<Seq<char>> {
    match output {
        Some(text) => value_in_lines(source, lines_of(text)),
        None => None,
    }
}

/// The first of the values that is there.
pub open spec fn first_found(a: Option<Seq<char>>, b: Option<Seq<char>>) -> Option<Seq<char>> {
    match a {
        Some(_) => a,
        None => b,
    }
}

/// The value that is there, or `unknown`.
pub open spec fn or_unknown(found: Option<Seq<char>>) -> Seq<char> {
    match found {
        Some(value) => value,
        None => unknown(),
    }
}

/// The layout now in force: the keymap of the device listing where it
/// names one, else the layout of the keyboard query, else `unknown`.
pub open spec fn current_layout_of(devices: Option<Seq<char>>, query: Option<Seq<char>>) -> Seq<
    char,
> {
    or_unknown(
        first_found(
            value_in_text(Source::DeviceListing, devices),
            value_in_text(Source::KeyboardQuery, query),
        ),
    )
}

/// The locale now in force: that of the locale settings where they name
/// one, else that of the status report, else the value of the language
/// variable, else `unknown`.
pub open spec fn current_locale_of(
    settings: Option<Seq<char>>,
    status: Option<Seq<char>>,
    variable: Option<Seq<char>>,
) -> Seq<char> {
    or_unknown(
        first_found(
            first_found(
                value_in_text(Source::LocaleSettings, settings),
                value_in_text(Source::StatusReport, status),
            ),
            variable,
        ),
    )
}

/// The value that one line of a source names, if it names one.
pub fn read_line(source: Source, line: &str) -> (r: Option<String>)
    ensures
        opt_str_is(r, value_on_line(source, line@)),
{
    match source {
        Source::DeviceListing => match second_field(line, "active keymap:") {
            Some(field) => Some(trim(field).to_owned()),
            None => None,
        },
        Source::KeyboardQuery => {
            if !starts_with(line, "layout:") {
                return None;
            }
            match second_field(line, ":") {
                Some(field) => Some(trim(field).to_owned()),
                None => None,
            }
        },
        Source::LocaleSettings => {
            if !starts_with(line, "LANG=") {
                return None;
            }
            match second_field(line, "=") {
                Some(field) => Some(strip_char(field, '"').to_owned()),
                None => None,
            }
        },
        Source::StatusReport => {
            if !starts_with(trim(line), "LANG=") {
                return None;
            }
            match second_field(line, "=") {
                Some(field) => Some(trim(field).to_owned()),
                None => None,
            }
        },
    }
}

/// The value that the lines of a source name: that of the first line which
/// names one.
pub fn read_lines(source: Source, lines: &Vec<String>) -> (r: Option<String>)
    ensures
        opt_str_is(r, value_in_lines(source, lines_view(lines@))),
{
    let ghost all = lines_view(lines@);
    let n: usize = lines.len();
    let mut i: usize = 0;
    assert(all.subrange(0, n as int) =~= all);
    while i < n
        invariant
            n == lines@.len(),
            i <= n,
            all == lines_view(lines@),
            value_in_lines(source, all) == value_in_lines(source, all.subrange(i as int, n as int)),
        decreases n - i,
    {
        proof {
            lemma_rest_step(all, i as int);
        }
        match read_line(source, lines[i].as_str()) {
            Some(value) => {
                return Some(value);
            },
            None => {},
        }
        i += 1;
    }
    None
}

/// The value that the text of a source names; none where the text is
/// missing.
pub fn read_text(source: Source, output: Option<&str>) -> (r: Option<String>)
    ensures
        opt_str_is(r, value_in_text(source, opt_text(output))),
{
    match output {
        Some(text) => {
            let all = lines(text);
            read_lines(source, &all)
        },
        None => None,
    }
}

/// The keyboard layout now in force, from what the listing of input
/// devices and the keyboard query printed. A tool that could not be run
/// gives nothing; where neither names a layout the result is `unknown`.
pub fn get_current_keyboard_layout(devices: Option<&str>, query: Option<&str>) -> (layout: String)
    ensures
        layout@ == current_layout_of(opt_text(devices), opt_text(query)),
{
    match read_text(Source::DeviceListing, devices) {
        Some(layout) => layout,
        None => match read_text(Source::KeyboardQuery, query) {
            Some(layout) => layout,
            None => "unknown".to_owned(),
        },
    }
}

/// The locale now in force, from what the listing of locale settings and
/// the status report printed and from the value of the language variable.
/// Where none of them names a locale the result is `unknown`.
pub fn get_current_locale(settings: Option<&str>, status: Option<&str>, variable: Option<&str>) -> (locale:
    String)
    ensures
        locale@ == current_locale_of(opt_text(settings), opt_text(status), opt_text(variable)),
{
    match read_text(Source::LocaleSettings, settings) {
        Some(locale) => locale,
        None => match read_text(Source::StatusReport, status) {
            Some(locale) => locale,
            None => match variable {
                Some(value) => value.to_owned(),
                None => "unknown".to_owned(),
            },
        },
    }
}

} // verus!
