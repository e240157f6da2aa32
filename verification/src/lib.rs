//! Menu and navigation state machine for a locale and keyboard-layout switcher.
//!
//! The library holds the collapsible two-group menu model, the cursor and
//! viewport arithmetic, and the protocol that turns one user input into a
//! state change plus an action for the caller to perform.

pub mod input;
pub mod laws;
pub mod layouts;
pub mod locale;
pub mod menu;
pub mod report;
pub mod screen;
pub mod seqs;
pub mod state;
pub mod status;
pub mod text;
