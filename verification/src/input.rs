//! The input protocol: what one input of the user does to the state, and
//! what it leaves for the caller to do.

use crate::locale::{options_view, Options};
use crate::menu::{Action, ActionView, EntryKind};
use crate::state::{AppState, MenuState};
use vstd::prelude::*;

verus! {

/// One input of the user.
#[derive(Clone, Copy, PartialEq, Eq, Debug, Structural)]
pub enum Input {
    /// Move the cursor up one row.
    MoveUp,
    /// Move the cursor down one row.
    MoveDown,
    /// Select the option, or toggle the group, under the cursor.
    Activate,
    /// Collapse the group whose header is under the cursor.
    Collapse,
    /// Read the values in force again and build the menu anew.
    Refresh,
    /// Leave.
    Quit,
    /// Any other input: it is ignored.
    Other,
}

/// What the caller does after an input has been handled.
#[derive(Clone, PartialEq, Eq, Debug)]
pub enum Command {
    /// Nothing: go on with the next input.
    Continue,
    /// Leave the loop.
    Quit,
    /// Read the values in force and the locales on offer, and hand them to
    /// `AppState::refresh`.
    Refresh,
    /// Perform the action; then, whether or not it succeeded, do as for
    /// `Refresh`.
    Run(Action),
}

/// A command as plain values.
pub enum CommandView {
    Continue,
    Quit,
    Refresh,
    Run(ActionView),
}

impl View for Command {
    type V = CommandView;

    open spec fn view(&self) -> CommandView {
        match self {
            Command::Continue => CommandView::Continue,
            Command::Quit => CommandView::Quit,
            Command::Refresh => CommandView::Refresh,
            Command::Run(action) => CommandView::Run(action@),
        }
    }
}

impl MenuState {
    /// Whether the input can be handled: one that reads the row under the
    /// cursor, an activation or a collapse, needs a cursor that names a row
    /// or an empty list; any other input is handled whatever the cursor.
    pub open spec fn admits(self, input: Input) -> bool {
        input == Input::Activate || input == Input::Collapse ==> self.cursor_in_list()
    }

    /// Whether handling the input builds the menu anew, and so consults the
    /// locales on offer: an activation on a header, or a collapse on the
    /// header of an expanded group.
    pub open spec fn consults_locales(self, input: Input) -> bool
        recommends
            self.admits(input),
    {
        match input {
            Input::Activate => self.entries.len() > 0 && self.kind_at_cursor() is GroupHeader,
            Input::Collapse => self.on_expanded_header(),
            _ => false,
        }
    }

    /// The state after the input has been handled.
    pub open spec fn stepped(self, input: Input, locales: Options) -> MenuState
        recommends
            self.admits(input),
    {
        match input {
            Input::MoveUp => self.moved_up(),
            Input::MoveDown => self.moved_down(),
            Input::Activate => self.activated(locales),
            Input::Collapse => self.collapsed(locales),
            Input::Refresh => self,
            Input::Quit => self,
            Input::Other => self,
        }
    }

    /// What the input leaves for the caller to do.
    pub open spec fn command_for(self, input: Input) -> CommandView
        recommends
            self.admits(input),
    {
        match input {
            Input::Quit => CommandView::Quit,
            Input::Refresh => CommandView::Refresh,
            Input::Activate => match self.pending_action() {
                ActionView::NoOp => CommandView::Continue,
                action => CommandView::Run(action),
            },
            _ => CommandView::Continue,
        }
    }
}

/// Where handling an input does not consult the locales, the state after it
/// is the same whatever locales are given.
pub proof fn lemma_step_without_locales(s: MenuState, input: Input, a: Options, b: Options)
    requires
        s.admits(input),
        !s.consults_locales(input),
    ensures
        s.stepped(input, a) == s.stepped(input, b),
{
}

/// An input that asks the caller to run an action, to refresh or to leave
/// does not change the state; and only an option's action is ever run.
pub proof fn lemma_command_leaves_state(s: MenuState, input: Input, locales: Options)
    requires
        s.well_formed(),
        s.admits(input),
        !(s.command_for(input) is Continue),
    ensures
        s.stepped(input, locales) == s,
        s.command_for(input) matches CommandView::Run(action) ==> !(action is ToggleGroup)
            && !(action is NoOp),
{
}

impl AppState {
    /// Whether the input can be handled in this state: an activation or a
    /// collapse only where the cursor names a row or the list is empty.
    pub fn admits(&self, input: Input) -> (r: bool)
        ensures
            r == self@.admits(input),
    {
        match input {
            Input::Activate => self.cursor_in_list(),
            Input::Collapse => self.cursor_in_list(),
            _ => true,
        }
    }

    /// Whether handling the input will consult the locales on offer. Where
    /// it will not, `handle_input` may be given any list.
    pub fn needs_locales(&self, input: Input) -> (r: bool)
        requires
            self.wf(),
            self@.admits(input),
        ensures
            r == self@.consults_locales(input),
    {
        match input {
            Input::Activate => {
                if self.is_empty() {
                    false
                } else {
                    match self.menu_items()[self.selected()].kind() {
                        EntryKind::GroupHeader(_) => true,
                        EntryKind::Leaf => false,
                    }
                }
            },
            Input::Collapse => self.on_expanded_header(),
            _ => false,
        }
    }

    /// Handles one input: changes the state as the input asks, and says what
    /// is left for the caller to do.
    pub fn handle_input(&mut self, input: Input, available_locales: &Vec<(String, String)>) -> (command:
        Command)
        requires
            old(self).wf(),
            old(self)@.admits(input),
        ensures
            final(self).wf(),
            final(self)@ == old(self)@.stepped(input, options_view(available_locales@)),
            command@ == old(self)@.command_for(input),
    {
        match input {
            Input::MoveUp => {
                self.move_up();
                Command::Continue
            },
            Input::MoveDown => {
                self.move_down();
                Command::Continue
            },
            Input::Activate => {
                match self.execute_selected(available_locales) {
                    Action::NoOp => Command::Continue,
                    action => Command::Run(action),
                }
            },
            Input::Collapse => {
                self.collapse_selected(available_locales);
                Command::Continue
            },
            Input::Refresh => Command::Refresh,
            Input::Quit => Command::Quit,
            Input::Other => Command::Continue,
        }
    }
}

} // verus!
