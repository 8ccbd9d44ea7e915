//! Popups overlaid on the screen; at most one is open at a time, and
//! while one is open it blocks all input but escape.

use vstd::prelude::*;

use crate::letters::LettersState;

verus! {

/// The popup currently open.
#[derive(Clone, Copy, Debug, PartialEq, Eq, Structural)]
pub enum Popup {
    /// The letter grid picking a corner position.
    Letters(LettersState),
    /// The uploaded-image panel.
    ImageUploaded,
    /// The keybindings cheatsheet.
    KeyCheatsheet,
}

} // verus!
