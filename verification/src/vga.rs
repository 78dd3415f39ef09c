//! Text-mode screen cells: a character byte paired with a colour attribute.

use vstd::prelude::*;

verus! {

/// One of the sixteen text-mode colours.
#[derive(Copy, Clone, PartialEq, Eq, Structural, Debug)]
pub enum Color {
    Black,
    Blue,
    Green,
    Cyan,
    Red,
    Magenta,
    Brown,
    Gray,
    DarkGray,
    BrightBlue,
    BrightGreen,
    BrightCyan,
    BrightRed,
    BrightMagenta,
    Yellow,
    White,
}

impl Color {
    /// The 4-bit hardware code of this colour.
    pub open spec fn spec_code(self) -> u8 {
        match self {
            Color::Black => 0x0,
            Color::Blue => 0x1,
            Color::Green => 0x2,
            Color::Cyan => 0x3,
            Color::Red => 0x4,
            Color::Magenta => 0x5,
            Color::Brown => 0x6,
            Color::Gray => 0x7,
            Color::DarkGray => 0x8,
            Color::BrightBlue => 0x9,
            Color::BrightGreen => 0xA,
            Color::BrightCyan => 0xB,
            Color::BrightRed => 0xC,
            Color::BrightMagenta => 0xD,
            Color::Yellow => 0xE,
            Color::White => 0xF,
        }
    }

    /// The 4-bit hardware code of this colour.
    pub fn code(self) -> (r: u8)
        ensures
            r == self.spec_code(),
            r <= 0xF,
    {
        match self {
            Color::Black => 0x0,
            Color::Blue => 0x1,
            Color::Green => 0x2,
            Color::Cyan => 0x3,
            Color::Red => 0x4,
            Color::Magenta => 0x5,
            Color::Brown => 0x6,
            Color::Gray => 0x7,
            Color::DarkGray => 0x8,
            Color::BrightBlue => 0x9,
            Color::BrightGreen => 0xA,
            Color::BrightCyan => 0xB,
            Color::BrightRed => 0xC,
            Color::BrightMagenta => 0xD,
            Color::Yellow => 0xE,
            Color::White => 0xF,
        }
    }
}

/// One screen cell: the character to draw and its colour attribute,
/// background colour in the high nibble and foreground in the low one.
#[derive(Copy, Clone, PartialEq, Eq, Structural, Debug)]
pub struct Character {
    pub character: u8,
    pub attribute: u8,
}

impl Character {
    /// Packs a character with its foreground and background colours.
    pub fn new(character: u8, foreground: Color, background: Color) -> (r: Character)
        ensures
            r.character == character,
            r.attribute == background.spec_code() * 16 + foreground.spec_code(),
    {
        let bg = background.code();
        let fg = foreground.code();
        assert((bg << 4) == bg * 16 && bg * 16 + fg < 256) by (bit_vector)
            requires
                bg <= 0xF && fg <= 0xF,
        ;
        let attribute = (bg << 4) + fg;

        Character { character, attribute }
    }

    /// The cell as the 16-bit value the video memory stores:
    /// attribute in the high byte, character in the low byte.
    pub fn as_ushort(&self) -> (r: u16)
        ensures
            r == self.attribute * 256 + self.character,
    {
        let c = self.character;
        let a = self.attribute;
        assert((c as u16) | ((a as u16) << 8) == a * 256 + c) by (bit_vector);
        (self.character as u16) | ((self.attribute as u16) << 8)
    }
}

} // verus!
