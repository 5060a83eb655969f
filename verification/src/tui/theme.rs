use vstd::prelude::*;

verus! {

/// A color of the interface.
#[derive(Debug, Clone, Copy, PartialEq, Eq, Structural)]
pub enum ThemeColor {
    /// Red, green and blue.
    Rgb(u8, u8, u8),
    /// The terminal's black.
    Black,
}

/// The colors of the interface.
pub struct Colors;

impl Colors {
    /// The color of the borders.
    pub fn border() -> (c: ThemeColor)
        ensures
            c == ThemeColor::Rgb(125, 122, 129),
    {
        ThemeColor::Rgb(125, 122, 129)
    }

    /// The background of the highlighted row.
    pub fn bg_hover() -> (c: ThemeColor)
        ensures
            c == ThemeColor::Rgb(182, 215, 221),
    {
        ThemeColor::Rgb(182, 215, 221)
    }

    /// The color of the text.
    pub fn text() -> (c: ThemeColor)
        ensures
            c == ThemeColor::Rgb(170, 165, 179),
    {
        ThemeColor::Rgb(170, 165, 179)
    }

    /// The text color of the highlighted row.
    pub fn text_hover() -> (c: ThemeColor)
        ensures
            c == ThemeColor::Black,
    {
        ThemeColor::Black
    }
}

} // verus!
