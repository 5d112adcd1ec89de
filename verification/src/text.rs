//! Text metadata: the color and style attached to a piece of chat or UI
//! text.
use vstd::prelude::*;

verus! {

#[derive(Clone, Copy, PartialEq, Eq, Structural, Debug)]
pub struct TextColor {
    pub r: u8,
    pub g: u8,
    pub b: u8,
}

impl TextColor {
    pub fn new(r: u8, g: u8, b: u8) -> (c: TextColor)
        ensures
            c == (TextColor { r, g, b }),
    {
        TextColor { r, g, b }
    }
}

#[derive(Clone, Copy, PartialEq, Eq, Structural, Debug)]
pub struct TextStyle {
    pub italic: bool,
    pub bold: bool,
}

impl TextStyle {
    pub fn new(italic: bool, bold: bool) -> (s: TextStyle)
        ensures
            s == (TextStyle { italic, bold }),
    {
        TextStyle { italic, bold }
    }
}

#[derive(Clone, Copy, PartialEq, Eq, Structural, Debug)]
pub struct TextMeta {
    pub color: TextColor,
    pub style: TextStyle,
}

impl TextMeta {
    pub fn new(color: TextColor, style: TextStyle) -> (m: TextMeta)
        ensures
            m == (TextMeta { color, style }),
    {
        TextMeta { color, style }
    }

    pub fn color(&self) -> (c: TextColor)
        ensures
            c == self.color,
    {
        self.color
    }

    pub fn style(&self) -> (s: TextStyle)
        ensures
            s == self.style,
    {
        self.style
    }
}

} // verus!
