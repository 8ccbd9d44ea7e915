//! Toolkit-neutral input events: pointer and keyboard, with positions
//! in pixels.

use vstd::prelude::*;

use crate::geometry::Point;
use crate::key::{Key, KeyMods};

verus! {

/// A pointer button the selection engine reacts to.
#[derive(Clone, Copy, Debug, PartialEq, Eq, Structural)]
pub enum PointerButton {
    /// The left (primary) button; a touch press counts as this.
    Left,
    /// The right (secondary) button.
    Right,
}

/// A discrete input event delivered to the selection engine.
#[derive(Clone, Copy, Debug, PartialEq, Eq, Structural)]
pub enum Event {
    /// A pointer button went down.
    PointerPressed {
        /// Which button.
        button: PointerButton,
    },
    /// A pointer button went up.
    PointerReleased {
        /// Which button.
        button: PointerButton,
    },
    /// The pointer moved.
    PointerMoved {
        /// Where it is now.
        position: Point,
    },
    /// A key went down.
    KeyPressed {
        /// The key without modifiers applied.
        key: Key,
        /// The key with modifiers applied.
        modified_key: Key,
        /// The modifiers held at the moment.
        mods: KeyMods,
    },
    /// A key went up.
    KeyReleased {
        /// The key without modifiers applied.
        key: Key,
    },
}

} // verus!
