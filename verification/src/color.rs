//! Colour types of the two panel families.
use vstd::prelude::*;

verus! {

/// Colours of a black/white panel.
#[derive(Clone, Copy, Debug, PartialEq, Eq, Structural)]
pub enum Color {
    Black,
    White,
}

/// Colours of a black/white/red panel.
#[derive(Clone, Copy, Debug, PartialEq, Eq, Structural)]
pub enum TriColor {
    Black,
    White,
    Red,
}

/// A colour of one of the panels, as the bytes it takes in the B/W RAM and in the red RAM.
pub trait ColorType {
    /// The byte that fills eight pixels of this colour in the B/W RAM and in the red RAM.
    fn byte_value(&self) -> (u8, u8);
}

/// The bytes of a black/white colour in the B/W RAM and in the red RAM.
pub open spec fn color_bytes(c: Color) -> (u8, u8) {
    match c {
        Color::Black => (0x00, 0x00),
        Color::White => (0xFF, 0x00),
    }
}

/// The bytes of a tri-colour colour in the B/W RAM and in the red RAM.
pub open spec fn tricolor_bytes(c: TriColor) -> (u8, u8) {
    match c {
        TriColor::Black => (0x00, 0x00),
        TriColor::White => (0xFF, 0x00),
        TriColor::Red => (0x00, 0xFF),
    }
}

impl ColorType for Color {
    fn byte_value(&self) -> (r: (u8, u8))
        ensures
            r == color_bytes(*self),
    {
        match self {
            Color::Black => (0x00, 0x00),
            Color::White => (0xFF, 0x00),
        }
    }
}

impl ColorType for TriColor {
    fn byte_value(&self) -> (r: (u8, u8))
        ensures
            r == tricolor_bytes(*self),
    {
        match self {
            TriColor::Black => (0x00, 0x00),
            TriColor::White => (0xFF, 0x00),
            TriColor::Red => (0x00, 0xFF),
        }
    }
}

} // verus!
