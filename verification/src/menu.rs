//! The menu model: two collapsible groups of options, flattened into the
//! rows that are shown.

use crate::layouts::{available_layouts, get_available_keyboard_layouts};
use crate::locale::{options_view, Options};
use crate::seqs::{first_where, lemma_first_where_unique};
use crate::text::str_eq;
use vstd::prelude::*;

verus! {

/// One of the two groups of options.
#[derive(Clone, Copy, PartialEq, Eq, Debug, Structural)]
pub enum Group {
    KeyboardLayout,
    Locale,
}

/// What activating a row asks for.
#[derive(Clone, PartialEq, Eq, Debug)]
pub enum Action {
    /// Nothing is to be done.
    NoOp,
    /// Expand or collapse the group.
    ToggleGroup(Group),
    /// Make the locale with this code the system's locale.
    ApplyLocale(String),
    /// Switch to the keyboard layout with this code.
    ApplyLayout(String),
}

/// An action as plain values.
pub enum ActionView {
    NoOp,
    ToggleGroup(Group),
    ApplyLocale(Seq<char>),
    ApplyLayout(Seq<char>),
}

impl View for Action {
    type V = ActionView;

    open spec fn view(&self) -> ActionView {
        match self {
            Action::NoOp => ActionView::NoOp,
            Action::ToggleGroup(group) => ActionView::ToggleGroup(*group),
            Action::ApplyLocale(code) => ActionView::ApplyLocale(code@),
            Action::ApplyLayout(code) => ActionView::ApplyLayout(code@),
        }
    }
}

impl Action {
    /// A copy of the action.
    pub fn duplicate(&self) -> (r: Action)
        ensures
            r@ == self@,
    {
        match self {
            Action::NoOp => Action::NoOp,
            Action::ToggleGroup(group) => Action::ToggleGroup(*group),
            Action::ApplyLocale(code) => Action::ApplyLocale(code.clone()),
            Action::ApplyLayout(code) => Action::ApplyLayout(code.clone()),
        }
    }
}

/// Whether a row is the header of a group or one of its options.
#[derive(Clone, Copy, PartialEq, Eq, Debug, Structural)]
pub enum EntryKind {
    GroupHeader(Group),
    Leaf,
}

/// One row of the flattened menu.
#[derive(Clone, PartialEq, Eq, Debug)]
pub struct MenuItem {
    pub label: String,
    pub description: String,
    pub action: Action,
}

/// A row as plain values.
pub struct Entry {
    pub label: Seq<char>,
    pub description: Seq<char>,
    pub action: ActionView,
}

impl Entry {
    /// A row is a header exactly when activating it toggles a group.
    pub open spec fn kind(self) -> EntryKind {
        match self.action {
            ActionView::ToggleGroup(group) => EntryKind::GroupHeader(group),
            _ => EntryKind::Leaf,
        }
    }
}

impl View for MenuItem {
    type V = Entry;

    open spec fn view(&self) -> Entry {
        Entry { label: self.label@, description: self.description@, action: self.action@ }
    }
}

impl MenuItem {
    /// Whether the row is a header, and of which group.
    pub fn kind(&self) -> (r: EntryKind)
        ensures
            r == self@.kind(),
    {
        match &self.action {
            Action::ToggleGroup(group) => EntryKind::GroupHeader(*group),
            _ => EntryKind::Leaf,
        }
    }
}

/// The rows of a vector of menu items as plain values.
pub open spec fn entries_view(items: Seq<MenuItem>) -> Seq<Entry> {
    Seq::new(items.len(), |i: int| items[i]@)
}

/// The sign in front of a header: pointing down when the group is open.
pub open spec fn expand_glyph(expanded: bool) -> Seq<char> {
    if expanded {
        "▼"@
    } else {
        "▶"@
    }
}

/// The title of a group.
pub open spec fn group_title(group: Group) -> Seq<char> {
    match group {
        Group::KeyboardLayout => "Keyboard Layouts"@,
        Group::Locale => "System Locales"@,
    }
}

/// The header row of a group: sign and title, with the value now in force
/// beneath.
pub open spec fn header_entry(group: Group, expanded: bool, current: Seq<char>) -> Entry {
    Entry {
        label: expand_glyph(expanded) + " "@ + group_title(group),
        description: "Current: "@ + current,
        action: ActionView::ToggleGroup(group),
    }
}

/// The mark in front of an option: a bullet on the one now in force.
pub open spec fn current_mark(is_current: bool) -> Seq<char> {
    if is_current {
        "● "@
    } else {
        "  "@
    }
}

/// The second line of an option's row.
pub open spec fn leaf_description(group: Group, code: Seq<char>) -> Seq<char> {
    match group {
        Group::KeyboardLayout => "Layout: "@ + code,
        Group::Locale => code,
    }
}

/// What activating an option asks for.
pub open spec fn leaf_action(group: Group, code: Seq<char>) -> ActionView {
    match group {
        Group::KeyboardLayout => ActionView::ApplyLayout(code),
        Group::Locale => ActionView::ApplyLocale(code),
    }
}

/// The row of one option (code, name) of a group. The option is marked as
/// current when its code is the current value, character for character.
pub open spec fn leaf_entry(group: Group, current: Seq<char>, option: (Seq<char>, Seq<char>)) -> Entry {
    Entry {
        label: current_mark(option.0 == current) + option.1,
        description: leaf_description(group, option.0),
        action: leaf_action(group, option.0),
    }
}

/// The rows of the options of a group, in the order of the options.
pub open spec fn leaf_entries(group: Group, current: Seq<char>, options: Options) -> Seq<Entry> {
    Seq::new(options.len(), |i: int| leaf_entry(group, current, options[i]))
}

/// The rows of one group: none where it has no options; else its header,
/// followed by its options exactly when it is expanded.
pub open spec fn group_entries(
    group: Group,
    expanded: bool,
    current: Seq<char>,
    options: Options,
) -> Seq<Entry> {
    if options.len() == 0 {
        Seq::empty()
    } else if expanded {
        seq![header_entry(group, expanded, current)] + leaf_entries(group, current, options)
    } else {
        seq![header_entry(group, expanded, current)]
    }
}

/// The flattened menu: the keyboard layouts derived from the locales, then
/// the locales.
pub open spec fn menu_entries(
    keyboard_expanded: bool,
    locale_expanded: bool,
    current_layout: Seq<char>,
    current_locale: Seq<char>,
    locales: Options,
) -> Seq<Entry> {
    group_entries(
        Group::KeyboardLayout,
        keyboard_expanded,
        current_layout,
        available_layouts(locales),
    ) + group_entries(Group::Locale, locale_expanded, current_locale, locales)
}

/// The header row of a group.
pub fn header_item(group: Group, expanded: bool, current: &str) -> (item: MenuItem)
    ensures
        item@ == header_entry(group, expanded, current@),
{
    let mut label = if expanded {
        "▼".to_owned()
    } else {
        "▶".to_owned()
    };
    label.append(" ");
    match group {
        Group::KeyboardLayout => label.append("Keyboard Layouts"),
        Group::Locale => label.append("System Locales"),
    }
    let mut description = "Current: ".to_owned();
    description.append(current);
    MenuItem { label, description, action: Action::ToggleGroup(group) }
}

/// The row of one option of a group.
pub fn leaf_item(group: Group, current: &str, code: &str, name: &str) -> (item: MenuItem)
    ensures
        item@ == leaf_entry(group, current@, (code@, name@)),
{
    let mut label = if str_eq(code, current) {
        "● ".to_owned()
    } else {
        "  ".to_owned()
    };
    label.append(name);
    match group {
        Group::KeyboardLayout => {
            let mut description = "Layout: ".to_owned();
            description.append(code);
            MenuItem { label, description, action: Action::ApplyLayout(code.to_owned()) }
        },
        Group::Locale => MenuItem {
            label,
            description: code.to_owned(),
            action: Action::ApplyLocale(code.to_owned()),
        },
    }
}

/// Appends the rows of one group to the menu.
pub fn push_group(
    items: &mut Vec<MenuItem>,
    group: Group,
    expanded: bool,
    current: &str,
    options: &Vec<(String, String)>,
)
    ensures
        entries_view(final(items)@) == entries_view(old(items)@) + group_entries(
            group,
            expanded,
            current@,
            options_view(options@),
        ),
{
    let ghost before = entries_view(items@);
    let ghost opts = options_view(options@);
    let n: usize = options.len();
    if n == 0 {
        assert(entries_view(items@) =~= before + Seq::<Entry>::empty());
        return ;
    }
    items.push(header_item(group, expanded, current));
    let ghost header = header_entry(group, expanded, current@);
    assert(entries_view(items@) =~= before + seq![header]);
    if expanded {
        let mut i: usize = 0;
        while i < n
            invariant
                n == options@.len(),
                i <= n,
                opts == options_view(options@),
                entries_view(items@) == before + seq![header] + leaf_entries(
                    group,
                    current@,
                    opts,
                ).subrange(0, i as int),
            decreases n - i,
        {
            let option = &options[i];
            let ghost shown = entries_view(items@);
            items.push(leaf_item(group, current, option.0.as_str(), option.1.as_str()));
            assert(entries_view(items@) =~= shown.push(leaf_entry(group, current@, opts[i as int])));
            assert(entries_view(items@) =~= before + seq![header] + leaf_entries(
                group,
                current@,
                opts,
            ).subrange(0, i + 1));
            i += 1;
        }
        assert(leaf_entries(group, current@, opts).subrange(0, n as int) =~= leaf_entries(
            group,
            current@,
            opts,
        ));
        assert(before + seq![header] + leaf_entries(group, current@, opts) =~= before + (
        seq![header] + leaf_entries(group, current@, opts)));
    }
}

/// The flattened menu for the given settings and locales.
pub fn build_entries(
    keyboard_expanded: bool,
    locale_expanded: bool,
    current_layout: &str,
    current_locale: &str,
    available_locales: &Vec<(String, String)>,
) -> (items: Vec<MenuItem>)
    ensures
        entries_view(items@) == menu_entries(
            keyboard_expanded,
            locale_expanded,
            current_layout@,
            current_locale@,
            options_view(available_locales@),
        ),
{
    let layouts = get_available_keyboard_layouts(available_locales);
    let mut items: Vec<MenuItem> = Vec::new();
    assert(entries_view(items@) =~= Seq::<Entry>::empty());
    push_group(&mut items, Group::KeyboardLayout, keyboard_expanded, current_layout, &layouts);
    push_group(&mut items, Group::Locale, locale_expanded, current_locale, available_locales);
    assert(Seq::<Entry>::empty() + group_entries(
        Group::KeyboardLayout,
        keyboard_expanded,
        current_layout@,
        options_view(layouts@),
    ) =~= group_entries(
        Group::KeyboardLayout,
        keyboard_expanded,
        current_layout@,
        options_view(layouts@),
    ));
    items
}

/// Being the header row of `group`.
pub open spec fn is_header_of(group: Group) -> spec_fn(Entry) -> bool {
    |entry: Entry| entry.kind() == EntryKind::GroupHeader(group)
}

/// The index of the first header row of `group`, or the length of the list
/// where it has none.
pub open spec fn header_index(entries: Seq<Entry>, group: Group) -> int {
    first_where(entries, is_header_of(group))
}

/// The index of the first header row of `group`; the length of the list
/// where it has none.
pub fn find_header(items: &Vec<MenuItem>, group: Group) -> (r: usize)
    ensures
        r == header_index(entries_view(items@), group),
{
    let n: usize = items.len();
    let mut i: usize = 0;
    while i < n
        invariant
            n == items@.len(),
            i <= n,
            forall|j: int|
                0 <= j < i ==> (#[trigger] entries_view(items@)[j]).kind()
                    != EntryKind::GroupHeader(group),
        decreases n - i,
    {
        if items[i].kind() == EntryKind::GroupHeader(group) {
            proof {
                lemma_first_where_unique(entries_view(items@), is_header_of(group), i as int);
            }
            return i;
        }
        i += 1;
    }
    proof {
        lemma_first_where_unique(entries_view(items@), is_header_of(group), n as int);
    }
    n
}

/// The shape of one group's rows: a group without options has none; any
/// other has its header first, and behind it one row for each option, in
/// the options' order, exactly when it is expanded.
pub proof fn lemma_group_entries(group: Group, expanded: bool, current: Seq<char>, options: Options)
    ensures
        group_entries(group, expanded, current, options).len() == (if options.len() == 0 {
            0
        } else if expanded {
            1 + options.len()
        } else {
            1
        }),
        options.len() > 0 ==> group_entries(group, expanded, current, options)[0] == header_entry(
            group,
            expanded,
            current,
        ),
        forall|i: int|
            1 <= i < group_entries(group, expanded, current, options).len() ==> #[trigger] group_entries(
                group,
                expanded,
                current,
                options,
            )[i] == leaf_entry(group, current, options[i - 1]),
{
}

/// Each group with options has exactly one header row in the menu: that of
/// the keyboard layouts is the first row, that of the locales follows the
/// rows of the keyboard layouts. A group without options has none.
pub proof fn lemma_menu_headers(
    keyboard_expanded: bool,
    locale_expanded: bool,
    current_layout: Seq<char>,
    current_locale: Seq<char>,
    locales: Options,
)
    ensures
        ({
            let menu = menu_entries(
                keyboard_expanded,
                locale_expanded,
                current_layout,
                current_locale,
                locales,
            );
            let layouts = available_layouts(locales);
            let keyboard_rows = group_entries(
                Group::KeyboardLayout,
                keyboard_expanded,
                current_layout,
                layouts,
            ).len();
            &&& forall|i: int|
                0 <= i < menu.len() ==> ((#[trigger] menu[i]).kind() == EntryKind::GroupHeader(
                    Group::KeyboardLayout,
                ) <==> i == 0 && layouts.len() > 0)
            &&& forall|i: int|
                0 <= i < menu.len() ==> ((#[trigger] menu[i]).kind() == EntryKind::GroupHeader(
                    Group::Locale,
                ) <==> i == keyboard_rows && locales.len() > 0)
            &&& header_index(menu, Group::KeyboardLayout) == (if layouts.len() > 0 {
                0
            } else {
                menu.len() as int
            })
            &&& header_index(menu, Group::Locale) == (if locales.len() > 0 {
                keyboard_rows as int
            } else {
                menu.len() as int
            })
        }),
{
    let menu = menu_entries(
        keyboard_expanded,
        locale_expanded,
        current_layout,
        current_locale,
        locales,
    );
    let layouts = available_layouts(locales);
    let first = group_entries(Group::KeyboardLayout, keyboard_expanded, current_layout, layouts);
    let second = group_entries(Group::Locale, locale_expanded, current_locale, locales);
    lemma_group_entries(Group::KeyboardLayout, keyboard_expanded, current_layout, layouts);
    lemma_group_entries(Group::Locale, locale_expanded, current_locale, locales);
    assert(menu == first + second);
    assert forall|i: int| 0 <= i < menu.len() implies ((#[trigger] menu[i]).kind()
        == EntryKind::GroupHeader(Group::KeyboardLayout) <==> i == 0 && layouts.len() > 0) by {
        if i < first.len() {
            assert(menu[i] == first[i]);
        } else {
            assert(menu[i] == second[i - first.len()]);
        }
    }
    assert forall|i: int| 0 <= i < menu.len() implies ((#[trigger] menu[i]).kind()
        == EntryKind::GroupHeader(Group::Locale) <==> i == first.len() && locales.len() > 0) by {
        if i < first.len() {
            assert(menu[i] == first[i]);
        } else {
            assert(menu[i] == second[i - first.len()]);
        }
    }
    lemma_first_where_unique(
        menu,
        is_header_of(Group::KeyboardLayout),
        if layouts.len() > 0 {
            0
        } else {
            menu.len() as int
        },
    );
    lemma_first_where_unique(
        menu,
        is_header_of(Group::Locale),
        if locales.len() > 0 {
            first.len() as int
        } else {
            menu.len() as int
        },
    );
}

/// Whether a row is one that the menu holds: the header of a group, or the
/// row of an option of a group.
pub open spec fn is_menu_row(entry: Entry) -> bool {
    ||| exists|group: Group, expanded: bool, current: Seq<char>|
        entry == #[trigger] header_entry(group, expanded, current)
    ||| exists|group: Group, current: Seq<char>, option: (Seq<char>, Seq<char>)|
        entry == #[trigger] leaf_entry(group, current, option)
}

/// Whether every row of a list is one that the menu holds.
pub open spec fn are_menu_rows(entries: Seq<Entry>) -> bool {
    forall|i: int| 0 <= i < entries.len() ==> is_menu_row(#[trigger] entries[i])
}

/// Every row of the menu is the header of a group or the row of an option.
pub proof fn lemma_menu_rows(
    keyboard_expanded: bool,
    locale_expanded: bool,
    current_layout: Seq<char>,
    current_locale: Seq<char>,
    locales: Options,
)
    ensures
        are_menu_rows(
            menu_entries(
                keyboard_expanded,
                locale_expanded,
                current_layout,
                current_locale,
                locales,
            ),
        ),
{
    let menu = menu_entries(
        keyboard_expanded,
        locale_expanded,
        current_layout,
        current_locale,
        locales,
    );
    let layouts = available_layouts(locales);
    let first = group_entries(Group::KeyboardLayout, keyboard_expanded, current_layout, layouts);
    let second = group_entries(Group::Locale, locale_expanded, current_locale, locales);
    lemma_group_entries(Group::KeyboardLayout, keyboard_expanded, current_layout, layouts);
    lemma_group_entries(Group::Locale, locale_expanded, current_locale, locales);
    assert forall|i: int| 0 <= i < menu.len() implies is_menu_row(#[trigger] menu[i]) by {
        if i < first.len() {
            assert(menu[i] == first[i]);
            if i == 0 {
                assert(menu[i] == header_entry(
                    Group::KeyboardLayout,
                    keyboard_expanded,
                    current_layout,
                ));
            } else {
                assert(menu[i] == leaf_entry(Group::KeyboardLayout, current_layout, layouts[i - 1]));
            }
        } else {
            let k = i - first.len();
            assert(menu[i] == second[k]);
            if k == 0 {
                assert(menu[i] == header_entry(Group::Locale, locale_expanded, current_locale));
            } else {
                assert(menu[i] == leaf_entry(Group::Locale, current_locale, locales[k - 1]));
            }
        }
    }
}

/// In a row that the menu holds, what is shown and what activating it asks
/// for belong together: a header toggles its group, and an option names in
/// its second line the code that its action applies. No row asks for
/// nothing.
pub proof fn lemma_menu_row(entry: Entry)
    requires
        is_menu_row(entry),
    ensures
        match entry.action {
            ActionView::ToggleGroup(group) => exists|expanded: bool, current: Seq<char>|
                entry == #[trigger] header_entry(group, expanded, current),
            ActionView::ApplyLayout(code) => entry.description == leaf_description(
                Group::KeyboardLayout,
                code,
            ),
            ActionView::ApplyLocale(code) => entry.description == leaf_description(
                Group::Locale,
                code,
            ),
            ActionView::NoOp => false,
        },
{
}

} // verus!
