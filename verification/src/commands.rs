//! The commands a keybinding or a button can dispatch.

use vstd::prelude::*;

use crate::geometry::Direction;
use crate::lazy_rect::LazyRectangle;
use crate::selection::Place;

verus! {

/// A command dispatched by a resolved keybinding or a button press;
/// keyboard and pointer paths are indistinguishable to the selection
/// engine.
#[derive(Clone, Copy, Debug, PartialEq, Eq, Structural)]
pub enum Command {
    /// Do nothing.
    NoOp,
    /// Exit the application.
    Exit,
    /// Toggle the overlay showing extra information.
    ToggleDebugOverlay,
    /// Open the keybindings cheatsheet.
    OpenKeybindingsCheatsheet,
    /// Open a letter grid to pick the top-left corner.
    PickTopLeftCorner,
    /// Open a letter grid to pick the bottom-right corner.
    PickBottomRightCorner,
    /// Hand the selection to an image action.
    ImageUpload(crate::image_action::Command),
    /// Set the selection width to the pressed count.
    SetWidth,
    /// Set the selection height to the pressed count.
    SetHeight,
    /// Replace the selection with a parsed region.
    SelectRegion {
        /// The region, to be resolved against the image bounds.
        selection: LazyRectangle,
    },
    /// Remove the selection.
    ClearSelection,
    /// Shift the selection in a direction by an amount of pixels.
    Move {
        /// Which way to move.
        direction: Direction,
        /// How many pixels; the largest value means "as far as allowed".
        amount: u32,
    },
    /// Grow the selection towards a direction by an amount of pixels.
    Extend {
        /// Which way to grow.
        direction: Direction,
        /// How many pixels; the largest value means "as far as allowed".
        amount: u32,
    },
    /// Shrink the selection away from a direction by an amount of
    /// pixels.
    Shrink {
        /// Which way to shrink.
        direction: Direction,
        /// How many pixels; the largest value means "as far as allowed".
        amount: u32,
    },
    /// Move the selection to a named place in the image.
    Goto {
        /// Where to go.
        place: Place,
    },
}

} // verus!
