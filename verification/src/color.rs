//! Color configuration values: a color is either a hex value or a
//! reference into a named palette.

use vstd::prelude::*;

verus! {

/// A name a color is allowed to have.
#[derive(Clone, Debug, PartialEq, Eq)]
pub struct ColorId {
    /// The name.
    pub name: String,
}

/// A reference to a color of the palette, by its name.
#[derive(Clone, Debug, PartialEq, Eq)]
pub struct PaletteId {
    /// The palette entry's name.
    pub name: String,
}

/// A configured color: a packed hex value, or a reference into the
/// palette to be resolved later.
#[derive(Clone, Debug, PartialEq, Eq)]
pub enum ColorValue {
    /// A packed `0xRRGGBB` value.
    Hex(u32),
    /// A reference to the palette entry with this name.
    Palette(String),
}

impl ColorValue {
    /// The hex value, when the color is not a palette reference.
    pub fn as_hex(&self) -> (r: Option<u32>)
        ensures
            match *self {
                ColorValue::Hex(v) => r == Some(v),
                ColorValue::Palette(_) => r is None,
            },
    {
        match self {
            ColorValue::Hex(v) => Some(*v),
            ColorValue::Palette(_) => None,
        }
    }
}

} // verus!
