//! The messages that tell the user how an action ended.

use crate::locale::{opt_str_is, options_view, Options};
use crate::menu::{Action, ActionView};
use crate::seqs::{first_where, lemma_first_where_unique};
use crate::text::{str_eq, trim, trimmed};
use vstd::prelude::*;

verus! {

/// How the tool that performs an action ended.
#[derive(Clone, PartialEq, Eq, Debug)]
pub enum Outcome {
    /// The tool ran and reported success.
    Succeeded,
    /// The tool ran and reported failure, with this text as its complaint.
    Failed(String),
    /// The tool could not be started, for this reason.
    NotRun(String),
}

/// An outcome as plain values.
pub enum OutcomeView {
    Succeeded,
    Failed(Seq<char>),
    NotRun(Seq<char>),
}

impl View for Outcome {
    type V = OutcomeView;

    open spec fn view(&self) -> OutcomeView {
        match self {
            Outcome::Succeeded => OutcomeView::Succeeded,
            Outcome::Failed(complaint) => OutcomeView::Failed(complaint@),
            Outcome::NotRun(reason) => OutcomeView::NotRun(reason@),
        }
    }
}

/// Having the given code.
pub open spec fn has_this_code(code: Seq<char>) -> spec_fn((Seq<char>, Seq<char>)) -> bool {
    |option: (Seq<char>, Seq<char>)| option.0 == code
}

/// The index of the first option with the given code, or the number of
/// options where none has it.
pub open spec fn index_of_code(options: Options, code: Seq<char>) -> int {
    first_where(options, has_this_code(code))
}

/// The name of the first option with the given code; the code itself where
/// no option has it.
pub open spec fn name_or_code(options: Options, code: Seq<char>) -> Seq<char> {
    let i = index_of_code(options, code);
    if 0 <= i < options.len() {
        options[i].1
    } else {
        code
    }
}

/// The message for an action that ended in the given way; no message for
/// what is no action of an option.
pub open spec fn message_for(action: ActionView, outcome: OutcomeView, locales: Options) -> Option<
    Seq<char>,
> {
    match action {
        ActionView::ApplyLayout(code) => Some(
            match outcome {
                OutcomeView::Succeeded => "Keyboard layout set to: "@ + code,
                OutcomeView::Failed(complaint) => "Failed to set keyboard layout: "@ + trimmed(
                    complaint,
                ),
                OutcomeView::NotRun(reason) => "Failed to execute hyprctl: "@ + reason,
            },
        ),
        ActionView::ApplyLocale(code) => Some(
            match outcome {
                OutcomeView::Succeeded => "Language set to: "@ + name_or_code(locales, code),
                _ => "Failed to set language (check sudo access)"@,
            },
        ),
        _ => None,
    }
}

/// The name under which the locale with the given code is on offer; the
/// code itself where it is not on offer.
pub fn display_name_for(locales: &Vec<(String, String)>, code: &str) -> (name: String)
    ensures
        name@ == name_or_code(options_view(locales@), code@),
{
    let n: usize = locales.len();
    let mut i: usize = 0;
    while i < n
        invariant
            n == locales@.len(),
            i <= n,
            forall|j: int| 0 <= j < i ==> (#[trigger] options_view(locales@)[j]).0 != code@,
        decreases n - i,
    {
        if str_eq(locales[i].0.as_str(), code) {
            proof {
                lemma_first_where_unique(options_view(locales@), has_this_code(code@), i as int);
            }
            return locales[i].1.clone();
        }
        i += 1;
    }
    proof {
        lemma_first_where_unique(options_view(locales@), has_this_code(code@), n as int);
    }
    code.to_owned()
}

/// The message that tells the user how an action ended. `locales` are the
/// locales on offer, among which the name of a locale is looked up.
pub fn notification_for(action: &Action, outcome: &Outcome, locales: &Vec<(String, String)>) -> (message:
    Option<String>)
    ensures
        opt_str_is(
            message,
            message_for(action@, outcome@, options_view(locales@)),
        ),
{
    match action {
        Action::ApplyLayout(code) => {
            let message = match outcome {
                Outcome::Succeeded => {
                    let mut text = "Keyboard layout set to: ".to_owned();
                    text.append(code.as_str());
                    text
                },
                Outcome::Failed(complaint) => {
                    let mut text = "Failed to set keyboard layout: ".to_owned();
                    text.append(trim(complaint.as_str()));
                    text
                },
                Outcome::NotRun(reason) => {
                    let mut text = "Failed to execute hyprctl: ".to_owned();
                    text.append(reason.as_str());
                    text
                },
            };
            Some(message)
        },
        Action::ApplyLocale(code) => {
            let message = match outcome {
                Outcome::Succeeded => {
                    let mut text = "Language set to: ".to_owned();
                    let name = display_name_for(locales, code.as_str());
                    text.append(name.as_str());
                    text
                },
                _ => "Failed to set language (check sudo access)".to_owned(),
            };
            Some(message)
        },
        _ => None,
    }
}

} // verus!
