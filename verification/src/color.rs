//! Colours of the plain display and the themes built from them.

use vstd::prelude::*;

use crate::text::{lowercase, lowercase_of, same_text};

verus! {

/// A terminal colour: the default, one of the sixteen named colours, a
/// 24-bit colour, or an entry of the palette of 256.
#[derive(Clone, Copy, Debug, PartialEq, Eq, Structural)]
pub enum Color {
    Reset,
    Black,
    Red,
    Green,
    Yellow,
    Blue,
    Magenta,
    Cyan,
    White,
    Gray,
    DarkGray,
    LightRed,
    LightGreen,
    LightYellow,
    LightBlue,
    LightMagenta,
    LightCyan,
    Rgb(u8, u8, u8),
    Indexed(u8),
}

/// The colours of the parts of the display.
#[derive(Clone, Copy, Debug)]
pub struct Theme {
    pub name: &'static str,
    pub title: Color,
    pub label: Color,
    pub separator: Color,
    pub logo: Color,
}

/// The theme of one accent colour: title, labels and logo in it, the
/// separator in dark grey.
pub open spec fn accent_theme(name: &'static str, color: Color) -> Theme {
    Theme { name, title: color, label: color, separator: Color::DarkGray, logo: color }
}

fn accent(name: &'static str, color: Color) -> (r: Theme)
    ensures
        r == accent_theme(name, color),
{
    Theme { name, title: color, label: color, separator: Color::DarkGray, logo: color }
}

impl Theme {
    pub open spec fn default_green_spec() -> Theme {
        accent_theme("green", Color::Green)
    }

    pub open spec fn cyan_spec() -> Theme {
        accent_theme("cyan", Color::Cyan)
    }

    pub open spec fn red_spec() -> Theme {
        accent_theme("red", Color::Red)
    }

    pub open spec fn magenta_spec() -> Theme {
        accent_theme("magenta", Color::Magenta)
    }

    pub open spec fn yellow_spec() -> Theme {
        accent_theme("yellow", Color::Yellow)
    }

    pub open spec fn blue_spec() -> Theme {
        accent_theme("blue", Color::Blue)
    }

    pub open spec fn mono_spec() -> Theme {
        accent_theme("mono", Color::White)
    }

    /// The theme that a name in lowercase selects: `pink` is magenta,
    /// `white` is mono, and every name that is not known is green.
    pub open spec fn named(lower: Seq<char>) -> Theme {
        if lower == "cyan"@ {
            Self::cyan_spec()
        } else if lower == "red"@ {
            Self::red_spec()
        } else if lower == "magenta"@ || lower == "pink"@ {
            Self::magenta_spec()
        } else if lower == "yellow"@ {
            Self::yellow_spec()
        } else if lower == "blue"@ {
            Self::blue_spec()
        } else if lower == "white"@ || lower == "mono"@ {
            Self::mono_spec()
        } else {
            Self::default_green_spec()
        }
    }

    /// The theme of a name, whatever its case.
    pub fn by_name(name: &str) -> (r: Theme)
        ensures
            r == Self::named(lowercase_of(name@)),
    {
        let lower: String = lowercase(name);
        Self::by_lowercase_name(lower.as_str())
    }

    /// The theme of a name that is in lowercase already.
    pub fn by_lowercase_name(lower: &str) -> (r: Theme)
        ensures
            r == Self::named(lower@),
    {
        if same_text(lower, "cyan") {
            Self::cyan()
        } else if same_text(lower, "red") {
            Self::red()
        } else if same_text(lower, "magenta") || same_text(lower, "pink") {
            Self::magenta()
        } else if same_text(lower, "yellow") {
            Self::yellow()
        } else if same_text(lower, "blue") {
            Self::blue()
        } else if same_text(lower, "white") || same_text(lower, "mono") {
            Self::mono()
        } else {
            Self::default_green()
        }
    }

    pub fn default_green() -> (r: Theme)
        ensures
            r == Self::default_green_spec(),
    {
        accent("green", Color::Green)
    }

    pub fn cyan() -> (r: Theme)
        ensures
            r == Self::cyan_spec(),
    {
        accent("cyan", Color::Cyan)
    }

    pub fn red() -> (r: Theme)
        ensures
            r == Self::red_spec(),
    {
        accent("red", Color::Red)
    }

    pub fn magenta() -> (r: Theme)
        ensures
            r == Self::magenta_spec(),
    {
        accent("magenta", Color::Magenta)
    }

    pub fn yellow() -> (r: Theme)
        ensures
            r == Self::yellow_spec(),
    {
        accent("yellow", Color::Yellow)
    }

    pub fn blue() -> (r: Theme)
        ensures
            r == Self::blue_spec(),
    {
        accent("blue", Color::Blue)
    }

    pub fn mono() -> (r: Theme)
        ensures
            r == Self::mono_spec(),
    {
        accent("mono", Color::White)
    }

    /// The names of the themes.
    pub fn available() -> (r: &'static [&'static str])
        ensures
            r@.len() == 7,
            r@[0]@ == "green"@,
            r@[1]@ == "cyan"@,
            r@[2]@ == "red"@,
            r@[3]@ == "magenta"@,
            r@[4]@ == "yellow"@,
            r@[5]@ == "blue"@,
            r@[6]@ == "mono"@,
    {
        &["green", "cyan", "red", "magenta", "yellow", "blue", "mono"]
    }
}

/// The number of the basic colour, from 0 to 7, that stands for a colour
/// where only eight are to be had: a light colour counts as its dark one,
/// dark grey as black, and every other colour as green.
pub open spec fn ansi_index(c: Color) -> u8 {
    match c {
        Color::Black | Color::DarkGray => 0,
        Color::Red | Color::LightRed => 1,
        Color::Green | Color::LightGreen => 2,
        Color::Yellow | Color::LightYellow => 3,
        Color::Blue | Color::LightBlue => 4,
        Color::Magenta | Color::LightMagenta => 5,
        Color::Cyan | Color::LightCyan => 6,
        Color::White => 7,
        Color::Reset | Color::Gray | Color::Rgb(_, _, _) | Color::Indexed(_) => 2,
    }
}

/// Maps a colour to a basic colour number.
pub fn color_to_ansi(c: &Color) -> (r: u8)
    ensures
        r == ansi_index(*c),
        r <= 7,
{
    match c {
        Color::Black => 0,
        Color::Red => 1,
        Color::Green => 2,
        Color::Yellow => 3,
        Color::Blue => 4,
        Color::Magenta => 5,
        Color::Cyan => 6,
        Color::White => 7,
        Color::DarkGray => 0,
        Color::LightRed => 1,
        Color::LightGreen => 2,
        Color::LightYellow => 3,
        Color::LightBlue => 4,
        Color::LightMagenta => 5,
        Color::LightCyan => 6,
        _ => 2,
    }
}

/// The colour of a name in lowercase, with or without underscores in the
/// light and dark names; white for every name that is not known.
pub open spec fn color_named(lower: Seq<char>) -> Color {
    if lower == "black"@ {
        Color::Black
    } else if lower == "red"@ {
        Color::Red
    } else if lower == "green"@ {
        Color::Green
    } else if lower == "yellow"@ {
        Color::Yellow
    } else if lower == "blue"@ {
        Color::Blue
    } else if lower == "magenta"@ {
        Color::Magenta
    } else if lower == "cyan"@ {
        Color::Cyan
    } else if lower == "white"@ {
        Color::White
    } else if lower == "dark_gray"@ || lower == "darkgray"@ {
        Color::DarkGray
    } else if lower == "light_red"@ || lower == "lightred"@ {
        Color::LightRed
    } else if lower == "light_green"@ || lower == "lightgreen"@ {
        Color::LightGreen
    } else if lower == "light_yellow"@ || lower == "lightyellow"@ {
        Color::LightYellow
    } else if lower == "light_blue"@ || lower == "lightblue"@ {
        Color::LightBlue
    } else if lower == "light_magenta"@ || lower == "lightmagenta"@ {
        Color::LightMagenta
    } else if lower == "light_cyan"@ || lower == "lightcyan"@ {
        Color::LightCyan
    } else {
        Color::White
    }
}

/// The colour of a name that is in lowercase already.
pub fn color_by_lowercase_name(lower: &str) -> (r: Color)
    ensures
        r == color_named(lower@),
{
    if same_text(lower, "black") {
        Color::Black
    } else if same_text(lower, "red") {
        Color::Red
    } else if same_text(lower, "green") {
        Color::Green
    } else if same_text(lower, "yellow") {
        Color::Yellow
    } else if same_text(lower, "blue") {
        Color::Blue
    } else if same_text(lower, "magenta") {
        Color::Magenta
    } else if same_text(lower, "cyan") {
        Color::Cyan
    } else if same_text(lower, "white") {
        Color::White
    } else if same_text(lower, "dark_gray") || same_text(lower, "darkgray") {
        Color::DarkGray
    } else if same_text(lower, "light_red") || same_text(lower, "lightred") {
        Color::LightRed
    } else if same_text(lower, "light_green") || same_text(lower, "lightgreen") {
        Color::LightGreen
    } else if same_text(lower, "light_yellow") || same_text(lower, "lightyellow") {
        Color::LightYellow
    } else if same_text(lower, "light_blue") || same_text(lower, "lightblue") {
        Color::LightBlue
    } else if same_text(lower, "light_magenta") || same_text(lower, "lightmagenta") {
        Color::LightMagenta
    } else if same_text(lower, "light_cyan") || same_text(lower, "lightcyan") {
        Color::LightCyan
    } else {
        Color::White
    }
}

/// The colour of a name, whatever its case.
pub fn color_by_name(name: &str) -> (r: Color)
    ensures
        r == color_named(lowercase_of(name@)),
{
    let lower: String = lowercase(name);
    color_by_lowercase_name(lower.as_str())
}

} // verus!
