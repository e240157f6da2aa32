//! The navigation state: the flattened menu, the cursor, the first visible
//! row, which groups are open, and the values now in force.

use crate::locale::{options_view, Options};
use crate::menu::{
    are_menu_rows, build_entries, entries_view, find_header, header_index, lemma_menu_rows,
    menu_entries, Action, ActionView, Entry, EntryKind, Group, MenuItem,
};
use vstd::prelude::*;

verus! {

/// The number of rows taken as visible until the display has been measured.
pub const DEFAULT_VISIBLE_ITEMS: usize = 10;

/// The state as plain values.
pub struct MenuState {
    pub entries: Seq<Entry>,
    pub selected: int,
    pub scroll_offset: int,
    pub keyboard_expanded: bool,
    pub locale_expanded: bool,
    pub current_layout: Seq<char>,
    pub current_locale: Seq<char>,
}

/// The least first visible row, from 0 on, that shows the row `selected` in
/// a viewport with room for `visible` rows.
pub open spec fn least_offset(selected: int, visible: int) -> int {
    if selected - (visible - 1) > 0 {
        selected - (visible - 1)
    } else {
        0
    }
}

/// The greatest first visible row with which a viewport with room for
/// `visible` rows does not reach past the end of a list of `len` rows.
pub open spec fn max_offset(len: int, visible: int) -> int {
    if len - visible > 0 {
        len - visible
    } else {
        0
    }
}

/// The first visible row after the viewport has been fitted to the cursor.
///
/// A viewport without room changes nothing. Otherwise the first visible row
/// is the least that shows the cursor, whatever it was before, and not
/// beyond the greatest with which the viewport stays within the list.
pub open spec fn scroll_after(selected: int, scroll_offset: int, len: int, visible: int) -> int {
    if visible <= 0 {
        scroll_offset
    } else if least_offset(selected, visible) <= max_offset(len, visible) {
        least_offset(selected, visible)
    } else {
        max_offset(len, visible)
    }
}

impl MenuState {
    /// What every operation keeps: the first visible row is not below the
    /// cursor, the cursor is 0 on the empty list, and every row is a header
    /// or the row of an option.
    ///
    /// That the cursor names a row is no part of it: the list may have been
    /// built anew and be shorter than it was.
    pub open spec fn well_formed(self) -> bool {
        &&& 0 <= self.scroll_offset <= self.selected
        &&& self.entries.len() == 0 ==> self.selected == 0
        &&& are_menu_rows(self.entries)
    }

    /// The cursor names a row, unless the list is empty.
    pub open spec fn cursor_in_list(self) -> bool {
        self.entries.len() > 0 ==> 0 <= self.selected < self.entries.len()
    }

    /// The first visible row lies within the list or at its end, so that
    /// the rows in view can be taken from the list.
    pub open spec fn window_in_list(self) -> bool {
        self.entries.len() > 0 ==> 0 <= self.scroll_offset <= self.entries.len()
    }

    /// The state with another cursor and first visible row.
    pub open spec fn with_cursor(self, selected: int, scroll_offset: int) -> MenuState {
        MenuState {
            entries: self.entries,
            selected,
            scroll_offset,
            keyboard_expanded: self.keyboard_expanded,
            locale_expanded: self.locale_expanded,
            current_layout: self.current_layout,
            current_locale: self.current_locale,
        }
    }

    /// The state with the values now in force replaced.
    pub open spec fn with_status(
        self,
        current_layout: Seq<char>,
        current_locale: Seq<char>,
    ) -> MenuState {
        MenuState {
            entries: self.entries,
            selected: self.selected,
            scroll_offset: self.scroll_offset,
            keyboard_expanded: self.keyboard_expanded,
            locale_expanded: self.locale_expanded,
            current_layout,
            current_locale,
        }
    }

    /// The state with the list of rows replaced. The cursor and the first
    /// visible row keep their values, whatever the length of the new list;
    /// only on a list that is empty both are 0.
    pub open spec fn with_entries(self, entries: Seq<Entry>) -> MenuState {
        MenuState {
            entries,
            selected: if entries.len() == 0 {
                0
            } else {
                self.selected
            },
            scroll_offset: if entries.len() == 0 {
                0
            } else {
                self.scroll_offset
            },
            keyboard_expanded: self.keyboard_expanded,
            locale_expanded: self.locale_expanded,
            current_layout: self.current_layout,
            current_locale: self.current_locale,
        }
    }

    /// Whether the rows are those of the menu for this state's settings and
    /// the given locales.
    pub open spec fn built_from(self, locales: Options) -> bool {
        self.entries == menu_entries(
            self.keyboard_expanded,
            self.locale_expanded,
            self.current_layout,
            self.current_locale,
            locales,
        )
    }

    /// The state after the menu has been built anew from the given locales.
    pub open spec fn rebuilt(self, locales: Options) -> MenuState {
        self.with_entries(
            menu_entries(
                self.keyboard_expanded,
                self.locale_expanded,
                self.current_layout,
                self.current_locale,
                locales,
            ),
        )
    }

    /// The state after the viewport, with room for `visible` rows, has been
    /// fitted to the cursor.
    pub open spec fn reclamped(self, visible: int) -> MenuState {
        self.with_cursor(
            self.selected,
            scroll_after(self.selected, self.scroll_offset, self.entries.len() as int, visible),
        )
    }

    /// The row below the cursor, or the first row from the last.
    pub open spec fn next_index(self) -> int {
        if self.selected + 1 < self.entries.len() {
            self.selected + 1
        } else {
            0
        }
    }

    /// The row above the cursor, or the last row from the first.
    pub open spec fn previous_index(self) -> int {
        if self.selected > 0 {
            self.selected - 1
        } else if self.entries.len() > 0 {
            self.entries.len() - 1
        } else {
            0
        }
    }

    /// The state after the cursor has moved down one row.
    pub open spec fn moved_down(self) -> MenuState {
        self.with_cursor(self.next_index(), self.scroll_offset).reclamped(
            DEFAULT_VISIBLE_ITEMS as int,
        )
    }

    /// The state after the cursor has moved up one row.
    pub open spec fn moved_up(self) -> MenuState {
        self.with_cursor(self.previous_index(), self.scroll_offset).reclamped(
            DEFAULT_VISIBLE_ITEMS as int,
        )
    }

    /// Whether the group is expanded.
    pub open spec fn expanded(self, group: Group) -> bool {
        match group {
            Group::KeyboardLayout => self.keyboard_expanded,
            Group::Locale => self.locale_expanded,
        }
    }

    /// The state with the group collapsed where it was expanded, or expanded
    /// where it was collapsed.
    pub open spec fn with_group_flipped(self, group: Group) -> MenuState {
        MenuState {
            entries: self.entries,
            selected: self.selected,
            scroll_offset: self.scroll_offset,
            keyboard_expanded: if group == Group::KeyboardLayout {
                !self.keyboard_expanded
            } else {
                self.keyboard_expanded
            },
            locale_expanded: if group == Group::Locale {
                !self.locale_expanded
            } else {
                self.locale_expanded
            },
            current_layout: self.current_layout,
            current_locale: self.current_locale,
        }
    }

    /// The state with the cursor on the header of the group, where the list
    /// has one.
    pub open spec fn at_header(self, group: Group) -> MenuState {
        let h = header_index(self.entries, group);
        if h < self.entries.len() {
            self.with_cursor(h, self.scroll_offset)
        } else {
            self
        }
    }

    /// The kind of the row under the cursor.
    pub open spec fn kind_at_cursor(self) -> EntryKind
        recommends
            self.entries.len() > 0,
            self.cursor_in_list(),
    {
        self.entries[self.selected].kind()
    }

    /// The state after a toggle at the cursor. On the empty list nothing
    /// changes. On the header of a group the group is flipped, the menu is
    /// built anew from the given locales, and the cursor goes to that
    /// group's header in the new list. On any other row only the viewport is
    /// fitted to the cursor.
    pub open spec fn toggled(self, locales: Options) -> MenuState
        recommends
            self.cursor_in_list(),
    {
        if self.entries.len() == 0 {
            self
        } else {
            match self.kind_at_cursor() {
                EntryKind::GroupHeader(group) => self.with_group_flipped(group).rebuilt(
                    locales,
                ).at_header(group).reclamped(DEFAULT_VISIBLE_ITEMS as int),
                EntryKind::Leaf => self.reclamped(DEFAULT_VISIBLE_ITEMS as int),
            }
        }
    }

    /// What is left for the caller to perform after an activation: the
    /// action of the option under the cursor, and nothing on a header or on
    /// the empty list.
    pub open spec fn pending_action(self) -> ActionView
        recommends
            self.cursor_in_list(),
    {
        if self.entries.len() == 0 {
            ActionView::NoOp
        } else {
            match self.entries[self.selected].action {
                ActionView::ToggleGroup(_) => ActionView::NoOp,
                action => action,
            }
        }
    }

    /// The state after an activation: a toggle on a header, no change on an
    /// option or on the empty list.
    pub open spec fn activated(self, locales: Options) -> MenuState
        recommends
            self.cursor_in_list(),
    {
        if self.entries.len() > 0 && self.kind_at_cursor() is GroupHeader {
            self.toggled(locales)
        } else {
            self
        }
    }

    /// Whether the cursor is on the header of a group that is expanded.
    pub open spec fn on_expanded_header(self) -> bool
        recommends
            self.cursor_in_list(),
    {
        self.entries.len() > 0 && match self.kind_at_cursor() {
            EntryKind::GroupHeader(group) => self.expanded(group),
            EntryKind::Leaf => false,
        }
    }

    /// The state after a request to collapse: a toggle on the header of an
    /// expanded group, no change anywhere else.
    pub open spec fn collapsed(self, locales: Options) -> MenuState
        recommends
            self.cursor_in_list(),
    {
        if self.on_expanded_header() {
            self.toggled(locales)
        } else {
            self
        }
    }

    /// The state after the values in force have been read again and the
    /// menu has been built anew. The cursor is not touched, unless the new
    /// list is empty.
    pub open spec fn refreshed(
        self,
        current_layout: Seq<char>,
        current_locale: Seq<char>,
        locales: Options,
    ) -> MenuState {
        self.with_status(current_layout, current_locale).rebuilt(locales)
    }
}

/// Fits the first visible row to the cursor for a viewport with room for
/// `visible_items` rows.
pub fn clamp_scroll(selected: usize, scroll_offset: usize, len: usize, visible_items: usize) -> (r:
    usize)
    ensures
        r == scroll_after(selected as int, scroll_offset as int, len as int, visible_items as int),
{
    if visible_items == 0 {
        return scroll_offset;
    }
    let least: usize = if selected > visible_items - 1 {
        selected - (visible_items - 1)
    } else {
        0
    };
    let greatest: usize = if len > visible_items {
        len - visible_items
    } else {
        0
    };
    if least <= greatest {
        least
    } else {
        greatest
    }
}

/// The menu with its cursor.
pub struct AppState {
    menu_items: Vec<MenuItem>,
    selected: usize,
    scroll_offset: usize,
    keyboard_section_expanded: bool,
    locale_section_expanded: bool,
    current_layout: String,
    current_locale: String,
}

impl View for AppState {
    type V = MenuState;

    closed spec fn view(&self) -> MenuState {
        MenuState {
            entries: entries_view(self.menu_items@),
            selected: self.selected as int,
            scroll_offset: self.scroll_offset as int,
            keyboard_expanded: self.keyboard_section_expanded,
            locale_expanded: self.locale_section_expanded,
            current_layout: self.current_layout@,
            current_locale: self.current_locale@,
        }
    }
}

impl AppState {
    /// The invariant of the state, kept by every operation.
    pub open spec fn wf(&self) -> bool {
        self@.well_formed()
    }

    /// Whether the cursor names a row or the list is empty. The operations
    /// that read the row under the cursor ask for it. Every operation keeps
    /// it but one that builds the menu anew, onto a list that ends before
    /// the cursor's index; a move down brings it back.
    pub fn cursor_in_list(&self) -> (r: bool)
        ensures
            r == self@.cursor_in_list(),
    {
        self.menu_items.len() == 0 || self.selected < self.menu_items.len()
    }

    /// Whether the first visible row lies within the list or at its end.
    pub fn window_in_list(&self) -> (r: bool)
        ensures
            r == self@.window_in_list(),
    {
        self.menu_items.len() == 0 || self.scroll_offset <= self.menu_items.len()
    }

    /// The state before anything is known: no rows, both groups open, no
    /// current values.
    pub fn new() -> (state: AppState)
        ensures
            state.wf(),
            state@ == (MenuState {
                entries: Seq::empty(),
                selected: 0,
                scroll_offset: 0,
                keyboard_expanded: true,
                locale_expanded: true,
                current_layout: Seq::empty(),
                current_locale: Seq::empty(),
            }),
    {
        let state = AppState {
            menu_items: Vec::new(),
            selected: 0,
            scroll_offset: 0,
            keyboard_section_expanded: true,
            locale_section_expanded: true,
            current_layout: String::new(),
            current_locale: String::new(),
        };
        assert(entries_view(state.menu_items@) =~= Seq::empty());
        state
    }

    /// Takes over the layout and the locale now in force. The rows stay as
    /// they are until the menu is built again.
    pub fn refresh_status(&mut self, current_layout: String, current_locale: String)
        requires
            old(self).wf(),
        ensures
            final(self).wf(),
            final(self)@ == old(self)@.with_status(current_layout@, current_locale@),
    {
        self.current_layout = current_layout;
        self.current_locale = current_locale;
    }

    /// Builds the rows anew from the locales on offer. Nothing else changes:
    /// the cursor keeps its index even where the new list has no row there.
    /// Only on a list that came out empty the cursor and the first visible
    /// row are 0.
    pub fn build_menu(&mut self, available_locales: &Vec<(String, String)>)
        requires
            old(self).wf(),
        ensures
            final(self).wf(),
            final(self)@ == old(self)@.rebuilt(options_view(available_locales@)),
    {
        self.menu_items =
        build_entries(
            self.keyboard_section_expanded,
            self.locale_section_expanded,
            self.current_layout.as_str(),
            self.current_locale.as_str(),
            available_locales,
        );
        proof {
            lemma_menu_rows(
                self.keyboard_section_expanded,
                self.locale_section_expanded,
                self.current_layout@,
                self.current_locale@,
                options_view(available_locales@),
            );
        }
        if self.menu_items.len() == 0 {
            self.selected = 0;
            self.scroll_offset = 0;
        }
    }

    /// Moves the cursor up one row, from the first row to the last. Any
    /// cursor is taken, also one beyond the list.
    pub fn move_up(&mut self)
        requires
            old(self).wf(),
        ensures
            final(self).wf(),
            final(self)@ == old(self)@.moved_up(),
    {
        if self.selected > 0 {
            self.selected -= 1;
        } else if self.menu_items.len() > 0 {
            self.selected = self.menu_items.len() - 1;
        }
        self.scroll_offset =
        clamp_scroll(
            self.selected,
            self.scroll_offset,
            self.menu_items.len(),
            DEFAULT_VISIBLE_ITEMS,
        );
    }

    /// Moves the cursor down one row, from the last row, or from beyond the
    /// list, to the first.
    pub fn move_down(&mut self)
        requires
            old(self).wf(),
        ensures
            final(self).wf(),
            final(self)@ == old(self)@.moved_down(),
    {
        let len: usize = self.menu_items.len();
        if len > 0 && self.selected < len - 1 {
            self.selected += 1;
        } else {
            self.selected = 0;
        }
        self.scroll_offset =
        clamp_scroll(self.selected, self.scroll_offset, len, DEFAULT_VISIBLE_ITEMS);
    }

    /// Fits the viewport to the cursor before the display has been measured.
    pub fn adjust_scroll(&mut self)
        requires
            old(self).wf(),
        ensures
            final(self).wf(),
            final(self)@ == old(self)@.reclamped(DEFAULT_VISIBLE_ITEMS as int),
            final(self)@.window_in_list(),
            old(self)@.cursor_in_list() ==> final(self)@.selected < final(self)@.scroll_offset
                + DEFAULT_VISIBLE_ITEMS,
    {
        self.adjust_scroll_for_height(DEFAULT_VISIBLE_ITEMS);
    }

    /// Fits the viewport to the cursor for a display with room for
    /// `visible_items` rows. With room for a row or more the viewport begins
    /// within the list afterwards, and the cursor is visible if it names a
    /// row.
    pub fn adjust_scroll_for_height(&mut self, visible_items: usize)
        requires
            old(self).wf(),
        ensures
            final(self).wf(),
            final(self)@ == old(self)@.reclamped(visible_items as int),
            visible_items >= 1 ==> final(self)@.window_in_list(),
            visible_items >= 1 && old(self)@.cursor_in_list() ==> final(self)@.selected
                < final(self)@.scroll_offset + visible_items,
    {
        self.scroll_offset =
        clamp_scroll(self.selected, self.scroll_offset, self.menu_items.len(), visible_items);
    }

    /// Expands or collapses the group whose header is under the cursor, and
    /// keeps the cursor on that header in the menu built anew. On an option
    /// only the viewport is fitted to the cursor; on the empty list nothing
    /// happens.
    pub fn toggle_section(&mut self, available_locales: &Vec<(String, String)>)
        requires
            old(self).wf(),
            old(self)@.cursor_in_list(),
        ensures
            final(self).wf(),
            final(self)@ == old(self)@.toggled(options_view(available_locales@)),
    {
        if self.menu_items.len() == 0 {
            return ;
        }
        match self.menu_items[self.selected].kind() {
            EntryKind::GroupHeader(group) => {
                match group {
                    Group::KeyboardLayout => {
                        self.keyboard_section_expanded = !self.keyboard_section_expanded;
                    },
                    Group::Locale => {
                        self.locale_section_expanded = !self.locale_section_expanded;
                    },
                }
                self.build_menu(available_locales);
                let header: usize = find_header(&self.menu_items, group);
                if header < self.menu_items.len() {
                    self.selected = header;
                }
            },
            EntryKind::Leaf => {},
        }
        self.scroll_offset =
        clamp_scroll(
            self.selected,
            self.scroll_offset,
            self.menu_items.len(),
            DEFAULT_VISIBLE_ITEMS,
        );
    }

    /// Activates the row under the cursor. A header is toggled at once and
    /// nothing is left to do. For an option the state stays as it is and the
    /// option's action is handed back: the caller performs it and then, whether
    /// or not it succeeded, calls `refresh`.
    pub fn execute_selected(&mut self, available_locales: &Vec<(String, String)>) -> (action:
        Action)
        requires
            old(self).wf(),
            old(self)@.cursor_in_list(),
        ensures
            final(self).wf(),
            final(self)@ == old(self)@.activated(options_view(available_locales@)),
            action@ == old(self)@.pending_action(),
    {
        if self.menu_items.len() == 0 {
            return Action::NoOp;
        }
        match self.menu_items[self.selected].kind() {
            EntryKind::GroupHeader(_) => {
                self.toggle_section(available_locales);
                Action::NoOp
            },
            EntryKind::Leaf => self.menu_items[self.selected].action.duplicate(),
        }
    }

    /// Collapses the group whose header is under the cursor, where it is
    /// expanded. Anywhere else nothing happens.
    pub fn collapse_selected(&mut self, available_locales: &Vec<(String, String)>)
        requires
            old(self).wf(),
            old(self)@.cursor_in_list(),
        ensures
            final(self).wf(),
            final(self)@ == old(self)@.collapsed(options_view(available_locales@)),
    {
        if self.on_expanded_header() {
            self.toggle_section(available_locales);
        }
    }

    /// Whether the cursor is on the header of a group that is expanded.
    pub fn on_expanded_header(&self) -> (r: bool)
        requires
            self.wf(),
            self@.cursor_in_list(),
        ensures
            r == self@.on_expanded_header(),
    {
        if self.menu_items.len() == 0 {
            return false;
        }
        match self.menu_items[self.selected].kind() {
            EntryKind::GroupHeader(Group::KeyboardLayout) => self.keyboard_section_expanded,
            EntryKind::GroupHeader(Group::Locale) => self.locale_section_expanded,
            EntryKind::Leaf => false,
        }
    }

    /// Takes over the values now in force and builds the menu anew. The
    /// cursor keeps its index, whatever the length of the new list; only on
    /// a list that came out empty it is 0.
    pub fn refresh(
        &mut self,
        current_layout: String,
        current_locale: String,
        available_locales: &Vec<(String, String)>,
    )
        requires
            old(self).wf(),
        ensures
            final(self).wf(),
            final(self)@ == old(self)@.refreshed(
                current_layout@,
                current_locale@,
                options_view(available_locales@),
            ),
    {
        self.refresh_status(current_layout, current_locale);
        self.build_menu(available_locales);
    }

    /// The rows of the menu.
    pub fn menu_items(&self) -> (items: &Vec<MenuItem>)
        ensures
            entries_view(items@) == self@.entries,
    {
        &self.menu_items
    }

    /// The number of rows of the menu.
    pub fn len(&self) -> (n: usize)
        ensures
            n == self@.entries.len(),
    {
        self.menu_items.len()
    }

    /// Whether the menu has no rows.
    pub fn is_empty(&self) -> (r: bool)
        ensures
            r == (self@.entries.len() == 0),
    {
        self.menu_items.len() == 0
    }

    /// The index of the row under the cursor.
    pub fn selected(&self) -> (i: usize)
        ensures
            i == self@.selected,
    {
        self.selected
    }

    /// The index of the first visible row.
    pub fn scroll_offset(&self) -> (i: usize)
        ensures
            i == self@.scroll_offset,
    {
        self.scroll_offset
    }

    /// Whether the group of keyboard layouts is expanded.
    pub fn keyboard_section_expanded(&self) -> (r: bool)
        ensures
            r == self@.keyboard_expanded,
    {
        self.keyboard_section_expanded
    }

    /// Whether the group of locales is expanded.
    pub fn locale_section_expanded(&self) -> (r: bool)
        ensures
            r == self@.locale_expanded,
    {
        self.locale_section_expanded
    }

    /// The keyboard layout now in force, as last taken over.
    pub fn current_layout(&self) -> (r: &str)
        ensures
            r@ == self@.current_layout,
    {
        self.current_layout.as_str()
    }

    /// The locale now in force, as last taken over.
    pub fn current_locale(&self) -> (r: &str)
        ensures
            r@ == self@.current_locale,
    {
        self.current_locale.as_str()
    }
}

} // verus!
