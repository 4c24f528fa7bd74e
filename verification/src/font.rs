//! Fonts of dialogs.

pub mod charset;
pub mod weight;

use vstd::prelude::*;

verus! {

/// The size of a font, in points.
#[derive(Copy, Clone, PartialEq, Eq, Debug, Structural)]
pub struct FontSize(pub i32);

impl FontSize {
    /// The size of `v` points.
    pub fn pt(v: i32) -> (r: FontSize)
        ensures
            r == FontSize(v),
    {
        FontSize(v)
    }
}

/// The weight of a font, from 0 (any weight) to 1000.
#[derive(Copy, Clone, PartialEq, Eq, Debug, Structural)]
pub struct FontWeight(pub i32);

impl Default for FontWeight {
    fn default() -> (r: FontWeight)
        ensures
            r == FontWeight(0),
    {
        FontWeight(0)
    }
}

/// Whether a font is italic: 0 where it is not, 1 where it is.
#[derive(Copy, Clone, PartialEq, Eq, Debug, Structural)]
pub struct FontItalic(pub i32);

impl Default for FontItalic {
    fn default() -> (r: FontItalic)
        ensures
            r == FontItalic(0),
    {
        FontItalic(0)
    }
}

/// The character set of a font.
#[derive(Copy, Clone, PartialEq, Eq, Debug, Structural)]
pub struct FontCharset(pub u8);

impl Default for FontCharset {
    fn default() -> (r: FontCharset)
        ensures
            r == FontCharset(charset::DEFAULT),
    {
        FontCharset(charset::DEFAULT)
    }
}

/// The font of a dialog.
pub struct Font {
    pub typeface: String,
    pub size: FontSize,
    pub weight: FontWeight,
    pub italic: FontItalic,
    pub charset: FontCharset,
}

} // verus!
