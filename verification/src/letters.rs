//! Picking a corner of the selection through a letter grid: the state
//! the grid popup keeps, and the message it sends when a point is
//! picked.

use vstd::prelude::*;

use crate::geometry::Point;

verus! {

/// What picking a position stands for.
#[derive(Clone, Copy, Debug, PartialEq, Eq, Structural)]
pub enum PickCorner {
    /// Picking the top-left corner of the selection.
    TopLeft,
    /// Picking the bottom-right corner of the selection.
    BottomRight,
}

/// State of the letter-grid popup.
#[derive(Clone, Copy, Debug, PartialEq, Eq, Structural)]
pub struct LettersState {
    /// Which corner the grid is picking a position for.
    pub picking_corner: PickCorner,
}

/// A message from the letter grid.
#[derive(Clone, Copy, Debug, PartialEq, Eq, Structural)]
pub enum Message {
    /// A point was picked for a corner.
    Pick {
        /// The picked point.
        point: Point,
        /// Which corner it is for.
        corner: PickCorner,
    },
}

} // verus!
