//! The numeric size indicator: messages that set one dimension of the
//! selection to a typed value, keeping the bottom-right corner fixed.

use vstd::prelude::*;

use crate::selection::SelectionIsSome;

verus! {

/// A typed change of one dimension of the selection.
#[derive(Clone, Copy, Debug, PartialEq, Eq, Structural)]
pub enum Message {
    /// Set the height; the bottom edge stays put.
    ResizeVertically {
        /// The new height.
        new_height: u32,
        /// Witness that a selection is present.
        sel_is_some: SelectionIsSome,
    },
    /// Set the width; the right edge stays put.
    ResizeHorizontally {
        /// The new width.
        new_width: u32,
        /// Witness that a selection is present.
        sel_is_some: SelectionIsSome,
    },
}

} // verus!
