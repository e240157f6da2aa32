//! Laws of the navigation state, stated over the state as plain values.

use crate::locale::Options;
use crate::menu::{
    header_index, is_header_of, leaf_description, lemma_group_entries, lemma_menu_headers,
    lemma_menu_row, lemma_menu_rows, ActionView, EntryKind, Group,
};
use crate::seqs::lemma_first_where;
use crate::state::MenuState;
use vstd::prelude::*;

verus! {

/// The state after the cursor has moved down `n` times.
pub open spec fn moved_down_times(s: MenuState, n: nat) -> MenuState
    decreases n,
{
    if n == 0 {
        s
    } else {
        moved_down_times(s, (n - 1) as nat).moved_down()
    }
}

/// Moving down `n` times from a row of the list, with `n` up to the number
/// of rows, advances the cursor by `n` rows around the list and leaves the
/// rows as they are.
pub proof fn lemma_moved_down_times(s: MenuState, n: nat)
    requires
        s.well_formed(),
        s.entries.len() > 0,
        s.cursor_in_list(),
        n <= s.entries.len(),
    ensures
        moved_down_times(s, n).well_formed(),
        moved_down_times(s, n).cursor_in_list(),
        moved_down_times(s, n).entries == s.entries,
        moved_down_times(s, n).selected == (if s.selected + n < s.entries.len() {
            s.selected + n
        } else {
            s.selected + n - s.entries.len()
        }),
    decreases n,
{
    if n > 0 {
        lemma_moved_down_times(s, (n - 1) as nat);
    }
}

/// On a list that is not empty, moving down as many times as the list has
/// rows brings the cursor back to the row it was on.
pub proof fn lemma_move_down_cycles(s: MenuState)
    requires
        s.well_formed(),
        s.entries.len() > 0,
        s.cursor_in_list(),
    ensures
        moved_down_times(s, s.entries.len()).selected == s.selected,
        moved_down_times(s, s.entries.len()).entries == s.entries,
{
    lemma_moved_down_times(s, s.entries.len());
}

/// A move leaves the rows, the groups and the values in force as they are,
/// and keeps the state well formed, wherever the cursor was. After a move
/// down the cursor names a row, also where it did not before.
pub proof fn lemma_moves_keep_the_rows(s: MenuState)
    requires
        s.well_formed(),
    ensures
        s.moved_down().well_formed(),
        s.moved_up().well_formed(),
        s.moved_down().cursor_in_list(),
        s.moved_down().with_cursor(s.selected, s.scroll_offset) == s,
        s.moved_up().with_cursor(s.selected, s.scroll_offset) == s,
{
}

/// From a row of the list, moving up undoes moving down, and moving down
/// undoes moving up, as far as the cursor goes.
pub proof fn lemma_move_up_undoes_move_down(s: MenuState)
    requires
        s.well_formed(),
        s.cursor_in_list(),
    ensures
        s.moved_down().moved_up().selected == s.selected,
        s.moved_up().moved_down().selected == s.selected,
{
}

/// After the viewport has been fitted with room for one row or more, the
/// cursor lies within it, provided the cursor names a row or lies within
/// the room of the viewport. The state stays well formed.
pub proof fn lemma_reclamp_shows_cursor(s: MenuState, visible: int)
    requires
        s.well_formed(),
        visible >= 1,
        s.selected < s.entries.len() || s.selected < visible,
    ensures
        s.reclamped(visible).well_formed(),
        s.reclamped(visible).scroll_offset <= s.reclamped(visible).selected,
        s.reclamped(visible).selected < s.reclamped(visible).scroll_offset + visible,
{
}

/// After the viewport has been fitted with room for one row or more, the
/// first visible row lies within the list, wherever the cursor is.
pub proof fn lemma_reclamp_begins_within_list(s: MenuState, visible: int)
    requires
        s.well_formed(),
        visible >= 1,
    ensures
        s.reclamped(visible).well_formed(),
        s.reclamped(visible).window_in_list(),
{
}

/// Fitting the viewport twice with the same room gives what fitting it once
/// gives.
pub proof fn lemma_reclamp_idempotent(s: MenuState, visible: int)
    ensures
        s.reclamped(visible).reclamped(visible) == s.reclamped(visible),
{
}

/// After the viewport has been fitted with room for one row or more, no
/// first visible row from 0 on that shows the cursor lies below the one
/// chosen.
pub proof fn lemma_reclamp_gives_least_offset(s: MenuState, visible: int, other: int)
    requires
        visible >= 1,
        0 <= other,
        s.selected < other + visible,
    ensures
        s.reclamped(visible).scroll_offset <= other,
{
}

/// After the viewport has been fitted with room for one row or more, it
/// does not reach past the end of the list, unless it begins with the first
/// row.
pub proof fn lemma_reclamp_stays_within_list(s: MenuState, visible: int)
    requires
        visible >= 1,
    ensures
        s.reclamped(visible).scroll_offset + visible <= s.entries.len() || s.reclamped(
            visible,
        ).scroll_offset == 0,
{
}

/// A fitting with room for one row or more does not depend on an earlier
/// fitting: what was assumed of the display before it was measured leaves
/// no trace.
pub proof fn lemma_reclamp_forgets_earlier_fitting(s: MenuState, earlier: int, visible: int)
    requires
        visible >= 1,
    ensures
        s.reclamped(earlier).reclamped(visible) == s.reclamped(visible),
{
}

/// A toggle keeps the state well formed.
pub proof fn lemma_toggled_well_formed(s: MenuState, locales: Options)
    requires
        s.well_formed(),
        s.cursor_in_list(),
    ensures
        s.toggled(locales).well_formed(),
{
    if s.entries.len() > 0 {
        match s.kind_at_cursor() {
            EntryKind::GroupHeader(group) => {
                let flipped = s.with_group_flipped(group);
                let rebuilt = flipped.rebuilt(locales);
                lemma_menu_rows(
                    flipped.keyboard_expanded,
                    flipped.locale_expanded,
                    flipped.current_layout,
                    flipped.current_locale,
                    locales,
                );
                lemma_first_where(rebuilt.entries, is_header_of(group));
            },
            EntryKind::Leaf => {},
        }
    }
}

/// Two toggles in a row, on a menu that was built from the same locales,
/// give back the rows as they were, in their order, with the cursor on the
/// row it was on and each group expanded or collapsed as before.
pub proof fn lemma_toggle_twice_restores(s: MenuState, locales: Options)
    requires
        s.well_formed(),
        s.cursor_in_list(),
        s.built_from(locales),
    ensures
        s.toggled(locales).toggled(locales).entries == s.entries,
        s.toggled(locales).toggled(locales).selected == s.selected,
        s.toggled(locales).toggled(locales).keyboard_expanded == s.keyboard_expanded,
        s.toggled(locales).toggled(locales).locale_expanded == s.locale_expanded,
{
    if s.entries.len() > 0 {
        match s.kind_at_cursor() {
            EntryKind::GroupHeader(group) => {
                lemma_menu_headers(
                    s.keyboard_expanded,
                    s.locale_expanded,
                    s.current_layout,
                    s.current_locale,
                    locales,
                );
                let flipped = s.with_group_flipped(group);
                lemma_menu_headers(
                    flipped.keyboard_expanded,
                    flipped.locale_expanded,
                    flipped.current_layout,
                    flipped.current_locale,
                    locales,
                );
                let once = s.toggled(locales);
                assert(once.entries == flipped.rebuilt(locales).entries);
                assert(once.selected == header_index(once.entries, group));
                assert(once.kind_at_cursor() == EntryKind::GroupHeader(group));
                let back = once.with_group_flipped(group);
                assert(back.keyboard_expanded == s.keyboard_expanded);
                assert(back.locale_expanded == s.locale_expanded);
                assert(back.rebuilt(locales).entries == s.entries);
            },
            EntryKind::Leaf => {},
        }
    }
}

/// After a toggle on the header of a group the cursor is on the header of
/// that group in the menu built anew, and the group is expanded exactly
/// when it was collapsed before.
pub proof fn lemma_toggle_keeps_cursor_on_header(s: MenuState, locales: Options, group: Group)
    requires
        s.well_formed(),
        s.cursor_in_list(),
        s.built_from(locales),
        s.entries.len() > 0,
        s.kind_at_cursor() == EntryKind::GroupHeader(group),
    ensures
        s.toggled(locales).built_from(locales),
        s.toggled(locales).cursor_in_list(),
        s.toggled(locales).expanded(group) == !s.expanded(group),
        0 <= s.toggled(locales).selected < s.toggled(locales).entries.len(),
        s.toggled(locales).kind_at_cursor() == EntryKind::GroupHeader(group),
{
    lemma_menu_headers(
        s.keyboard_expanded,
        s.locale_expanded,
        s.current_layout,
        s.current_locale,
        locales,
    );
    let flipped = s.with_group_flipped(group);
    lemma_menu_headers(
        flipped.keyboard_expanded,
        flipped.locale_expanded,
        flipped.current_layout,
        flipped.current_locale,
        locales,
    );
}

/// Building the menu anew replaces the rows and nothing else: on a list
/// that is not empty the cursor and the first visible row are what they
/// were, whatever the length of the new list, and the groups and the values
/// in force are what they were in any case.
pub proof fn lemma_rebuild_keeps_cursor(s: MenuState, locales: Options)
    ensures
        s.rebuilt(locales).entries.len() > 0 ==> s.rebuilt(locales).selected == s.selected
            && s.rebuilt(locales).scroll_offset == s.scroll_offset,
        s.rebuilt(locales).entries.len() == 0 ==> s.rebuilt(locales).selected == 0 && s.rebuilt(
            locales,
        ).scroll_offset == 0,
        s.rebuilt(locales).keyboard_expanded == s.keyboard_expanded,
        s.rebuilt(locales).locale_expanded == s.locale_expanded,
        s.rebuilt(locales).current_layout == s.current_layout,
        s.rebuilt(locales).current_locale == s.current_locale,
{
}

/// Reading the values in force again and building the menu anew does not
/// touch the cursor or the groups, unless the new list is empty.
pub proof fn lemma_refresh_keeps_cursor(
    s: MenuState,
    current_layout: Seq<char>,
    current_locale: Seq<char>,
    locales: Options,
)
    ensures
        s.refreshed(current_layout, current_locale, locales).entries.len() > 0 ==> s.refreshed(
            current_layout,
            current_locale,
            locales,
        ).selected == s.selected && s.refreshed(
            current_layout,
            current_locale,
            locales,
        ).scroll_offset == s.scroll_offset,
        s.refreshed(current_layout, current_locale, locales).keyboard_expanded
            == s.keyboard_expanded,
        s.refreshed(current_layout, current_locale, locales).locale_expanded == s.locale_expanded,
        s.refreshed(current_layout, current_locale, locales).current_layout == current_layout,
        s.refreshed(current_layout, current_locale, locales).current_locale == current_locale,
{
}

/// Building the menu anew keeps the state well formed, and its rows are
/// then those of the menu for the state's settings and the locales given.
pub proof fn lemma_rebuilt_well_formed(s: MenuState, locales: Options)
    requires
        s.well_formed(),
    ensures
        s.rebuilt(locales).well_formed(),
        s.rebuilt(locales).built_from(locales),
{
    lemma_menu_rows(
        s.keyboard_expanded,
        s.locale_expanded,
        s.current_layout,
        s.current_locale,
        locales,
    );
}

/// Building the menu anew twice from the same locales gives what building
/// it once gives.
pub proof fn lemma_rebuild_idempotent(s: MenuState, locales: Options)
    ensures
        s.rebuilt(locales).rebuilt(locales) == s.rebuilt(locales),
{
}

/// With a locale on offer the menu is not empty, whatever is expanded.
pub proof fn lemma_menu_never_empty(s: MenuState, locales: Options)
    requires
        locales.len() > 0,
    ensures
        s.rebuilt(locales).entries.len() > 0,
{
    lemma_group_entries(Group::Locale, s.locale_expanded, s.current_locale, locales);
}

/// Activating an option hands back the action that its row shows: the code
/// that the action applies is the code in the row's second line. Activating
/// a header hands nothing back.
pub proof fn lemma_pending_action_is_the_rows(s: MenuState)
    requires
        s.well_formed(),
        s.cursor_in_list(),
        s.entries.len() > 0,
    ensures
        match s.pending_action() {
            ActionView::ApplyLayout(code) => s.kind_at_cursor() == EntryKind::Leaf
                && s.entries[s.selected].description == leaf_description(
                Group::KeyboardLayout,
                code,
            ),
            ActionView::ApplyLocale(code) => s.kind_at_cursor() == EntryKind::Leaf
                && s.entries[s.selected].description == leaf_description(Group::Locale, code),
            ActionView::NoOp => s.kind_at_cursor() is GroupHeader,
            ActionView::ToggleGroup(_) => false,
        },
{
    lemma_menu_row(s.entries[s.selected]);
}

} // verus!
