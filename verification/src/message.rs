//! Application messages: everything that can mutate the application
//! state, whatever path it arrived by.

use vstd::prelude::*;

use crate::commands::Command;

verus! {

/// An event in the application that mutates the global state.
#[derive(Clone, Debug, PartialEq, Eq)]
pub enum Message {
    /// Close the application.
    Exit,
    /// Close the current popup.
    ClosePopup,
    /// A message from the letter grid.
    Letters(crate::letters::Message),
    /// A message from the size indicator.
    SizeIndicator(crate::size_indicator::Message),
    /// A message about the selection.
    Selection(crate::selection::Message),
    /// An error to show to the user.
    Error(String),
    /// Do nothing.
    NoOp,
    /// A command, with how many times it applies: moving by `n` pixels
    /// under a count of `c` moves by `n * c`.
    Command {
        /// What to do.
        action: Command,
        /// How many times it was asked for.
        count: u32,
    },
}

} // verus!
