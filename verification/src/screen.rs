//! What is shown: the rows that fit the display, how each row looks, and the
//! lines of text around the list.

use crate::menu::{Entry, EntryKind, MenuItem};
use crate::state::{AppState, MenuState};
use vstd::prelude::*;

verus! {

/// The number of lines of the display that one row takes.
pub const ITEM_HEIGHT: u16 = 2;

/// The number of lines that the frame around the list takes.
pub const FRAME_LINES: u16 = 2;

/// The number of rows that fit a list area of the given height: the lines
/// within its frame, divided by the lines of a row.
pub open spec fn rows_for_height(menu_height: int) -> int {
    if menu_height <= FRAME_LINES {
        0
    } else {
        (menu_height - FRAME_LINES) / (ITEM_HEIGHT as int)
    }
}

/// The number of rows that fit a list area of the given height.
pub fn visible_items_for_height(menu_height: u16) -> (visible_items: usize)
    ensures
        visible_items == rows_for_height(menu_height as int),
{
    if menu_height <= FRAME_LINES {
        0
    } else {
        ((menu_height - FRAME_LINES) / ITEM_HEIGHT) as usize
    }
}

impl MenuState {
    /// The index behind the last visible row: the viewport ends with the
    /// list where the list is shorter.
    pub open spec fn window_end(self, visible: int) -> int {
        if self.scroll_offset + visible <= self.entries.len() {
            self.scroll_offset + visible
        } else {
            self.entries.len() as int
        }
    }

    /// The rows in view: the index of the first and the index behind the
    /// last. No row of an empty list is in view.
    pub open spec fn window(self, visible: int) -> (int, int) {
        if self.entries.len() == 0 {
            (0, 0)
        } else {
            (self.scroll_offset, self.window_end(visible))
        }
    }

    /// Whether rows lie above the viewport.
    pub open spec fn more_above(self) -> bool {
        self.scroll_offset > 0
    }

    /// Whether rows lie below the viewport.
    pub open spec fn more_below(self, visible: int) -> bool {
        self.window_end(visible) < self.entries.len()
    }
}

/// The hints on the controls.
pub open spec fn controls_hint() -> Seq<char> {
    "Controls: ↑/↓ Navigate • Enter Select/Toggle • q/Esc Quit"@
}

/// The line beneath the list: the hints on the controls, followed by a note
/// for each side on which rows are out of view.
pub open spec fn footer_line(more_above: bool, more_below: bool) -> Seq<char> {
    controls_hint() + (if more_above {
        " • ⬆ More above"@
    } else {
        Seq::empty()
    }) + (if more_below {
        " • ⬇ More below"@
    } else {
        Seq::empty()
    })
}

/// The line above the list: the locale and the layout now in force.
pub open spec fn status_line(current_locale: Seq<char>, current_layout: Seq<char>) -> Seq<char> {
    "Locale: "@ + current_locale + " | Keyboard Layout: "@ + current_layout
}

/// The mark in front of a row: a pointer on the row under the cursor.
pub open spec fn cursor_mark(under_cursor: bool) -> Seq<char> {
    if under_cursor {
        "► "@
    } else {
        "  "@
    }
}

/// The two lines of a row: mark and label, then the description.
pub open spec fn row_lines(entry: Entry, under_cursor: bool) -> Seq<char> {
    cursor_mark(under_cursor) + entry.label + "\n"@ + entry.description
}

/// How a row is drawn.
#[derive(Clone, Copy, PartialEq, Eq, Debug, Structural)]
pub enum RowStyle {
    /// A header under the cursor.
    SelectedHeader,
    /// An option under the cursor.
    SelectedLeaf,
    /// A header elsewhere.
    Header,
    /// An option elsewhere.
    Leaf,
}

/// The style of a row of the given kind.
pub open spec fn style_of(kind: EntryKind, under_cursor: bool) -> RowStyle {
    match kind {
        EntryKind::GroupHeader(_) => if under_cursor {
            RowStyle::SelectedHeader
        } else {
            RowStyle::Header
        },
        EntryKind::Leaf => if under_cursor {
            RowStyle::SelectedLeaf
        } else {
            RowStyle::Leaf
        },
    }
}

/// The style in which a row of the given kind is drawn.
pub fn row_style(kind: EntryKind, under_cursor: bool) -> (style: RowStyle)
    ensures
        style == style_of(kind, under_cursor),
{
    match kind {
        EntryKind::GroupHeader(_) => if under_cursor {
            RowStyle::SelectedHeader
        } else {
            RowStyle::Header
        },
        EntryKind::Leaf => if under_cursor {
            RowStyle::SelectedLeaf
        } else {
            RowStyle::Leaf
        },
    }
}

/// The text of a row: mark and label on the first line, the description on
/// the second.
pub fn row_text(item: &MenuItem, under_cursor: bool) -> (text: String)
    ensures
        text@ == row_lines(item@, under_cursor),
{
    let mut text = if under_cursor {
        "► ".to_owned()
    } else {
        "  ".to_owned()
    };
    text.append(item.label.as_str());
    text.append("\n");
    text.append(item.description.as_str());
    text
}

impl AppState {
    /// The rows in view for a display with room for `visible_items` rows:
    /// the index of the first, and the index behind the last. They lie
    /// within the list, so the rows between them can be taken from it. The
    /// first visible row must lie within the list or at its end, as it does
    /// after a fitting with room for a row or more.
    pub fn visible_range(&self, visible_items: usize) -> (range: (usize, usize))
        requires
            self.wf(),
            self@.window_in_list(),
        ensures
            range.0 == self@.window(visible_items as int).0,
            range.1 == self@.window(visible_items as int).1,
            range.0 <= range.1 <= self@.entries.len(),
    {
        let len: usize = self.len();
        if len == 0 {
            return (0, 0);
        }
        let start: usize = self.scroll_offset();
        let end: usize = if visible_items <= len - start {
            start + visible_items
        } else {
            len
        };
        (start, end)
    }

    /// The line beneath the list for a display with room for
    /// `visible_items` rows.
    pub fn footer_text(&self, visible_items: usize) -> (text: String)
        ensures
            text@ == footer_line(self@.more_above(), self@.more_below(visible_items as int)),
    {
        let start: usize = self.scroll_offset();
        let len: usize = self.len();
        let mut text = "Controls: ↑/↓ Navigate • Enter Select/Toggle • q/Esc Quit".to_owned();
        if start > 0 {
            text.append(" • ⬆ More above");
        }
        if start < len && visible_items < len - start {
            text.append(" • ⬇ More below");
        }
        proof {
            assert(text@ =~= footer_line(
                self@.more_above(),
                self@.more_below(visible_items as int),
            ));
        }
        text
    }

    /// The line above the list.
    pub fn status_text(&self) -> (text: String)
        ensures
            text@ == status_line(self@.current_locale, self@.current_layout),
    {
        let mut text = "Locale: ".to_owned();
        text.append(self.current_locale());
        text.append(" | Keyboard Layout: ");
        text.append(self.current_layout());
        text
    }
}

} // verus!
