//! Color types and terminal color handling.

use vstd::prelude::*;

verus! {

/// Terminal color representation with fallback support.
#[derive(Debug, Clone, Copy, PartialEq, Eq, Structural)]
pub enum Color {
    /// Reset to terminal default.
    Reset,
    /// True color (24-bit RGB).
    Rgb(u8, u8, u8),
    /// 256-color palette index.
    Ansi256(u8),
    /// 16-color ANSI palette.
    Ansi(AnsiColor),
}

/// Standard ANSI 16-color palette.
#[derive(Debug, Clone, Copy, PartialEq, Eq, Structural)]
pub enum AnsiColor {
    Black,
    Red,
    Green,
    Yellow,
    Blue,
    Magenta,
    Cyan,
    White,
    BrightBlack,
    BrightRed,
    BrightGreen,
    BrightYellow,
    BrightBlue,
    BrightMagenta,
    BrightCyan,
    BrightWhite,
}

impl Default for Color {
    fn default() -> (c: Color)
        ensures
            c == Color::Reset,
    {
        Color::Reset
    }
}

/// Palette index (0-15) of an ANSI color.
pub open spec fn ansi_index(a: AnsiColor) -> u8 {
    match a {
        AnsiColor::Black => 0,
        AnsiColor::Red => 1,
        AnsiColor::Green => 2,
        AnsiColor::Yellow => 3,
        AnsiColor::Blue => 4,
        AnsiColor::Magenta => 5,
        AnsiColor::Cyan => 6,
        AnsiColor::White => 7,
        AnsiColor::BrightBlack => 8,
        AnsiColor::BrightRed => 9,
        AnsiColor::BrightGreen => 10,
        AnsiColor::BrightYellow => 11,
        AnsiColor::BrightBlue => 12,
        AnsiColor::BrightMagenta => 13,
        AnsiColor::BrightCyan => 14,
        AnsiColor::BrightWhite => 15,
    }
}

/// Index of an RGB triple in the 256-color palette: equal components land on
/// the 24-step grey ramp (232..=255, white on its last step), anything else
/// in the 6x6x6 color cube (16..=231).
pub open spec fn rgb_to_ansi256(r: u8, g: u8, b: u8) -> int {
    if r == g && g == b {
        let gray = (r as int * 24) / 255;
        if 232 + gray > 255 {
            255
        } else {
            232 + gray
        }
    } else {
        16 + 36 * ((r as int * 5) / 255) + 6 * ((g as int * 5) / 255) + (b as int * 5) / 255
    }
}

/// Index of a color in the 256-color palette; the terminal default counts
/// as 0.
pub open spec fn color_to_ansi256(c: Color) -> int {
    match c {
        Color::Reset => 0,
        Color::Rgb(r, g, b) => rgb_to_ansi256(r, g, b),
        Color::Ansi256(idx) => idx as int,
        Color::Ansi(a) => ansi_index(a) as int,
    }
}

/// The greatest of three components.
pub open spec fn max3(r: u8, g: u8, b: u8) -> u8 {
    let m = if r >= g { r } else { g };
    if m >= b { m } else { b }
}

/// One of a dim color and its bright twin.
pub open spec fn pick(bright: bool, dim: AnsiColor, lit: AnsiColor) -> AnsiColor {
    if bright { lit } else { dim }
}

/// Nearest of the 16 ANSI colors to an RGB triple: bright above an average
/// of 128, black below a peak of 64, else the dominant primary, else the
/// secondary that two equal leading components make, else white.
pub open spec fn rgb_to_ansi(r: u8, g: u8, b: u8) -> AnsiColor {
    let bright = (r as int + g as int + b as int) / 3 > 128;
    let m = max3(r, g, b);
    if m < 64 {
        pick(bright, AnsiColor::Black, AnsiColor::BrightBlack)
    } else if r == m && r > g && r > b {
        pick(bright, AnsiColor::Red, AnsiColor::BrightRed)
    } else if g == m && g > r && g > b {
        pick(bright, AnsiColor::Green, AnsiColor::BrightGreen)
    } else if b == m && b > r && b > g {
        pick(bright, AnsiColor::Blue, AnsiColor::BrightBlue)
    } else if r == g && r > b {
        pick(bright, AnsiColor::Yellow, AnsiColor::BrightYellow)
    } else if r == b && r > g {
        pick(bright, AnsiColor::Magenta, AnsiColor::BrightMagenta)
    } else if g == b && g > r {
        pick(bright, AnsiColor::Cyan, AnsiColor::BrightCyan)
    } else {
        pick(bright, AnsiColor::White, AnsiColor::BrightWhite)
    }
}

/// The ANSI color with palette index `idx`, if `idx` is at most 15.
pub open spec fn ansi_from_index(idx: u8) -> Option<AnsiColor> {
    if idx == 0 {
        Some(AnsiColor::Black)
    } else if idx == 1 {
        Some(AnsiColor::Red)
    } else if idx == 2 {
        Some(AnsiColor::Green)
    } else if idx == 3 {
        Some(AnsiColor::Yellow)
    } else if idx == 4 {
        Some(AnsiColor::Blue)
    } else if idx == 5 {
        Some(AnsiColor::Magenta)
    } else if idx == 6 {
        Some(AnsiColor::Cyan)
    } else if idx == 7 {
        Some(AnsiColor::White)
    } else if idx == 8 {
        Some(AnsiColor::BrightBlack)
    } else if idx == 9 {
        Some(AnsiColor::BrightRed)
    } else if idx == 10 {
        Some(AnsiColor::BrightGreen)
    } else if idx == 11 {
        Some(AnsiColor::BrightYellow)
    } else if idx == 12 {
        Some(AnsiColor::BrightBlue)
    } else if idx == 13 {
        Some(AnsiColor::BrightMagenta)
    } else if idx == 14 {
        Some(AnsiColor::BrightCyan)
    } else if idx == 15 {
        Some(AnsiColor::BrightWhite)
    } else {
        None
    }
}

/// Nearest of the 16 ANSI colors to a color; the terminal default and
/// palette indices above 15 count as white.
pub open spec fn color_to_ansi(c: Color) -> AnsiColor {
    match c {
        Color::Reset => AnsiColor::White,
        Color::Rgb(r, g, b) => rgb_to_ansi(r, g, b),
        Color::Ansi256(idx) => match ansi_from_index(idx) {
            Some(a) => a,
            None => AnsiColor::White,
        },
        Color::Ansi(a) => a,
    }
}

impl Color {
    /// Create a color from RGB values.
    pub fn rgb(r: u8, g: u8, b: u8) -> (c: Color)
        ensures
            c == Color::Rgb(r, g, b),
    {
        Color::Rgb(r, g, b)
    }

    /// The terminal default color.
    pub fn reset() -> (c: Color)
        ensures
            c == Color::Reset,
    {
        Color::Reset
    }

    /// Convert to an approximate 256-color palette index.
    pub fn to_ansi256(&self) -> (idx: u8)
        ensures
            idx == color_to_ansi256(*self),
            self is Rgb ==> idx >= 16,
    {
        match self {
            Color::Reset => 0,
            Color::Rgb(r, g, b) => {
                if *r == *g && *g == *b {
                    let gray: u16 = (*r as u16 * 24) / 255;
                    if gray > 23 {
                        255
                    } else {
                        (232 + gray) as u8
                    }
                } else {
                    let r_idx: u16 = (*r as u16 * 5) / 255;
                    let g_idx: u16 = (*g as u16 * 5) / 255;
                    let b_idx: u16 = (*b as u16 * 5) / 255;
                    (16 + 36 * r_idx + 6 * g_idx + b_idx) as u8
                }
            },
            Color::Ansi256(idx) => *idx,
            Color::Ansi(ansi) => ansi.to_ansi256(),
        }
    }

    /// Convert to the nearest ANSI 16-color.
    pub fn to_ansi(&self) -> (a: AnsiColor)
        ensures
            a == color_to_ansi(*self),
    {
        match self {
            Color::Reset => AnsiColor::White,
            Color::Rgb(r, g, b) => {
                let r: u8 = *r;
                let g: u8 = *g;
                let b: u8 = *b;
                let brightness: u16 = (r as u16 + g as u16 + b as u16) / 3;
                let is_bright = brightness > 128;
                let rg: u8 = if r >= g { r } else { g };
                let max_component: u8 = if rg >= b { rg } else { b };
                if max_component < 64 {
                    if is_bright { AnsiColor::BrightBlack } else { AnsiColor::Black }
                } else if r == max_component && r > g && r > b {
                    if is_bright { AnsiColor::BrightRed } else { AnsiColor::Red }
                } else if g == max_component && g > r && g > b {
                    if is_bright { AnsiColor::BrightGreen } else { AnsiColor::Green }
                } else if b == max_component && b > r && b > g {
                    if is_bright { AnsiColor::BrightBlue } else { AnsiColor::Blue }
                } else if r == g && r > b {
                    if is_bright { AnsiColor::BrightYellow } else { AnsiColor::Yellow }
                } else if r == b && r > g {
                    if is_bright { AnsiColor::BrightMagenta } else { AnsiColor::Magenta }
                } else if g == b && g > r {
                    if is_bright { AnsiColor::BrightCyan } else { AnsiColor::Cyan }
                } else {
                    if is_bright { AnsiColor::BrightWhite } else { AnsiColor::White }
                }
            },
            Color::Ansi256(idx) => match AnsiColor::from_ansi256(*idx) {
                Some(a) => a,
                None => AnsiColor::White,
            },
            Color::Ansi(ansi) => *ansi,
        }
    }
}

impl AnsiColor {
    /// Convert an ANSI color to its palette index (0-15).
    pub fn to_ansi256(&self) -> (idx: u8)
        ensures
            idx == ansi_index(*self),
            idx < 16,
    {
        match self {
            AnsiColor::Black => 0,
            AnsiColor::Red => 1,
            AnsiColor::Green => 2,
            AnsiColor::Yellow => 3,
            AnsiColor::Blue => 4,
            AnsiColor::Magenta => 5,
            AnsiColor::Cyan => 6,
            AnsiColor::White => 7,
            AnsiColor::BrightBlack => 8,
            AnsiColor::BrightRed => 9,
            AnsiColor::BrightGreen => 10,
            AnsiColor::BrightYellow => 11,
            AnsiColor::BrightBlue => 12,
            AnsiColor::BrightMagenta => 13,
            AnsiColor::BrightCyan => 14,
            AnsiColor::BrightWhite => 15,
        }
    }

    /// Convert a palette index (0-15) to its ANSI color; `None` above 15.
    pub fn from_ansi256(idx: u8) -> (r: Option<AnsiColor>)
        ensures
            r == ansi_from_index(idx),
            r is Some <==> idx < 16,
            r matches Some(a) ==> ansi_index(a) == idx,
    {
        match idx {
            0 => Some(AnsiColor::Black),
            1 => Some(AnsiColor::Red),
            2 => Some(AnsiColor::Green),
            3 => Some(AnsiColor::Yellow),
            4 => Some(AnsiColor::Blue),
            5 => Some(AnsiColor::Magenta),
            6 => Some(AnsiColor::Cyan),
            7 => Some(AnsiColor::White),
            8 => Some(AnsiColor::BrightBlack),
            9 => Some(AnsiColor::BrightRed),
            10 => Some(AnsiColor::BrightGreen),
            11 => Some(AnsiColor::BrightYellow),
            12 => Some(AnsiColor::BrightBlue),
            13 => Some(AnsiColor::BrightMagenta),
            14 => Some(AnsiColor::BrightCyan),
            15 => Some(AnsiColor::BrightWhite),
            _ => None,
        }
    }
}

/// Every ANSI color is found again from its palette index.
pub proof fn lemma_ansi_index_round_trip(a: AnsiColor)
    ensures
        ansi_from_index(ansi_index(a)) == Some(a),
{
}

} // verus!
