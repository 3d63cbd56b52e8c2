use vstd::prelude::*;

verus! {

/// The sixteen colors of the text-mode palette.
#[derive(Debug, Clone, Copy, PartialEq, Eq, Structural)]
pub enum Color {
    Black,
    Blue,
    Green,
    Cyan,
    Red,
    Magenta,
    Brown,
    LightGray,
    DarkGray,
    LightBlue,
    LightGreen,
    LightCyan,
    LightRed,
    Pink,
    Yellow,
    White,
}

/// The severity of a diagnostic message; each one selects its own colors.
#[derive(Debug, Clone, Copy, PartialEq, Eq, Structural)]
pub enum DebugLevel {
    Core,
    Process,
}

/// The 4-bit hardware number of a color.
pub open spec fn color_number(c: Color) -> u8 {
    match c {
        Color::Black => 0,
        Color::Blue => 1,
        Color::Green => 2,
        Color::Cyan => 3,
        Color::Red => 4,
        Color::Magenta => 5,
        Color::Brown => 6,
        Color::LightGray => 7,
        Color::DarkGray => 8,
        Color::LightBlue => 9,
        Color::LightGreen => 10,
        Color::LightCyan => 11,
        Color::LightRed => 12,
        Color::Pink => 13,
        Color::Yellow => 14,
        Color::White => 15,
    }
}

impl Color {
    /// The 4-bit hardware number of this color.
    fn number(self) -> (r: u8)
        ensures
            r == color_number(self),
            r < 16,
    {
        match self {
            Color::Black => 0,
            Color::Blue => 1,
            Color::Green => 2,
            Color::Cyan => 3,
            Color::Red => 4,
            Color::Magenta => 5,
            Color::Brown => 6,
            Color::LightGray => 7,
            Color::DarkGray => 8,
            Color::LightBlue => 9,
            Color::LightGreen => 10,
            Color::LightCyan => 11,
            Color::LightRed => 12,
            Color::Pink => 13,
            Color::Yellow => 14,
            Color::White => 15,
        }
    }
}

/// A foreground and a background color packed into one attribute byte:
/// bits 0-3 hold the foreground, bits 4-7 the background.
#[derive(Debug, Clone, Copy, PartialEq, Eq, Structural)]
pub struct ColorCode(pub u8);

/// The attribute byte for the given foreground and background.
pub open spec fn packed(foreground: Color, background: Color) -> ColorCode {
    ColorCode((color_number(background) * 16 + color_number(foreground)) as u8)
}

impl ColorCode {
    pub fn new(foreground: Color, background: Color) -> (r: ColorCode)
        ensures
            r == packed(foreground, background),
    {
        let fg = foreground.number();
        let bg = background.number();
        ColorCode(bg * 16 + fg)
    }
}

/// The colors in which messages of a severity are shown.
pub open spec fn level_color(level: DebugLevel) -> ColorCode {
    match level {
        DebugLevel::Core => packed(Color::Red, Color::Black),
        DebugLevel::Process => packed(Color::Cyan, Color::Black),
    }
}

impl DebugLevel {
    /// The colors in which messages of this severity are shown.
    pub fn color_code(self) -> (r: ColorCode)
        ensures
            r == level_color(self),
    {
        match self {
            DebugLevel::Core => ColorCode::new(Color::Red, Color::Black),
            DebugLevel::Process => ColorCode::new(Color::Cyan, Color::Black),
        }
    }
}

} // verus!
