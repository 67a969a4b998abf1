//! The sixteen colours of the text mode and the byte that packs two of them.

use vstd::prelude::*;

verus! {

/// A colour of the text mode palette. The variants stand in palette order,
/// black first and white last.
#[derive(Copy, Clone, Debug, PartialEq, Eq, Structural)]
pub enum Color {
    Black,
    Blue,
    Green,
    Cyan,
    Red,
    Magenta,
    Brown,
    LightGray,
    DarkGray,
    LightBlue,
    LightGreen,
    LightCyan,
    LightRed,
    Pink,
    Yellow,
    White,
}

impl Color {
    /// The colour's number in the palette, from 0 for black to 15 for white.
    pub open spec fn spec_value(self) -> u8 {
        match self {
            Color::Black => 0,
            Color::Blue => 1,
            Color::Green => 2,
            Color::Cyan => 3,
            Color::Red => 4,
            Color::Magenta => 5,
            Color::Brown => 6,
            Color::LightGray => 7,
            Color::DarkGray => 8,
            Color::LightBlue => 9,
            Color::LightGreen => 10,
            Color::LightCyan => 11,
            Color::LightRed => 12,
            Color::Pink => 13,
            Color::Yellow => 14,
            Color::White => 15,
        }
    }

    /// The colour's number in the palette.
    #[verifier::when_used_as_spec(spec_value)]
    pub fn value(self) -> (n: u8)
        ensures
            n == self.spec_value(),
            n <= 15,
    {
        match self {
            Color::Black => 0,
            Color::Blue => 1,
            Color::Green => 2,
            Color::Cyan => 3,
            Color::Red => 4,
            Color::Magenta => 5,
            Color::Brown => 6,
            Color::LightGray => 7,
            Color::DarkGray => 8,
            Color::LightBlue => 9,
            Color::LightGreen => 10,
            Color::LightCyan => 11,
            Color::LightRed => 12,
            Color::Pink => 13,
            Color::Yellow => 14,
            Color::White => 15,
        }
    }
}

/// The colour byte of a cell: the background in the high four bits, the
/// foreground in the low four.
#[derive(Copy, Clone, Debug, PartialEq, Eq, Structural)]
pub struct ColorCode(pub u8);

impl ColorCode {
    /// The byte that shows `fg` on `bg`.
    pub open spec fn spec_new(bg: Color, fg: Color) -> ColorCode {
        ColorCode((bg.value() << 4) | fg.value())
    }

    /// Packs a background and a foreground into one colour byte.
    #[verifier::when_used_as_spec(spec_new)]
    pub fn new(bg: Color, fg: Color) -> (code: ColorCode)
        ensures
            code == ColorCode::spec_new(bg, fg),
            code.0 == 16 * bg.value() + fg.value(),
    {
        let b: u8 = bg.value();
        let f: u8 = fg.value();
        assert(b <= 15 && f <= 15 ==> ((b << 4) | f) == 16 * b + f) by (bit_vector);
        ColorCode((b << 4) | f)
    }

    /// White on black, the colour of ordinary text.
    pub open spec fn spec_plain() -> ColorCode {
        ColorCode::spec_new(Color::Black, Color::White)
    }

    /// White on black, the colour of ordinary text.
    #[verifier::when_used_as_spec(spec_plain)]
    pub fn plain() -> (code: ColorCode)
        ensures
            code == ColorCode::spec_plain(),
            code.0 == 0x0f,
    {
        ColorCode::new(Color::Black, Color::White)
    }
}

/// Two pairs of colours that pack into the same byte are the same pair.
pub proof fn lemma_color_code_injective(bg1: Color, fg1: Color, bg2: Color, fg2: Color)
    requires
        ColorCode::spec_new(bg1, fg1) == ColorCode::spec_new(bg2, fg2),
    ensures
        bg1 == bg2,
        fg1 == fg2,
{
    let b1: u8 = bg1.value();
    let f1: u8 = fg1.value();
    let b2: u8 = bg2.value();
    let f2: u8 = fg2.value();
    assert(b1 <= 15 && f1 <= 15 ==> ((b1 << 4) | f1) == 16 * b1 + f1) by (bit_vector);
    assert(b2 <= 15 && f2 <= 15 ==> ((b2 << 4) | f2) == 16 * b2 + f2) by (bit_vector);
}

} // verus!
