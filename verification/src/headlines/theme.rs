//! What a theme decides of the way a card looks: the colour of its title,
//! the colour of its link, and the line that its title is shown as.

use vstd::prelude::*;
use vstd::string::StringExecFns;

verus! {

/// A colour, by its red, green and blue parts.
#[derive(Clone, Copy, Debug, PartialEq, Eq, Structural)]
pub struct Rgb {
    pub red: u8,
    pub green: u8,
    pub blue: u8,
}

impl Rgb {
    pub open spec fn white() -> Rgb {
        Rgb { red: 255, green: 255, blue: 255 }
    }

    pub open spec fn black() -> Rgb {
        Rgb { red: 0, green: 0, blue: 0 }
    }

    pub open spec fn pure_red() -> Rgb {
        Rgb { red: 255, green: 0, blue: 0 }
    }

    pub open spec fn cyan() -> Rgb {
        Rgb { red: 0, green: 255, blue: 255 }
    }
}

/// What goes before the title of a card.
pub const TITLE_MARK: &'static str = "> ";

/// The colour of a card's title: white on the dark theme, black on the
/// light one.
pub open spec fn title_colour_of(dark_mode: bool) -> Rgb {
    if dark_mode {
        Rgb::white()
    } else {
        Rgb::black()
    }
}

/// The colour of a card's link: cyan on the dark theme, red on the light
/// one.
pub open spec fn link_colour_of(dark_mode: bool) -> Rgb {
    if dark_mode {
        Rgb::cyan()
    } else {
        Rgb::pure_red()
    }
}

/// The colour of a card's title.
pub fn title_colour(dark_mode: bool) -> (colour: Rgb)
    ensures
        colour == title_colour_of(dark_mode),
{
    if dark_mode {
        Rgb { red: 255, green: 255, blue: 255 }
    } else {
        Rgb { red: 0, green: 0, blue: 0 }
    }
}

/// The colour of a card's link.
pub fn link_colour(dark_mode: bool) -> (colour: Rgb)
    ensures
        colour == link_colour_of(dark_mode),
{
    if dark_mode {
        Rgb { red: 0, green: 255, blue: 255 }
    } else {
        Rgb { red: 255, green: 0, blue: 0 }
    }
}

/// The line that a card's title is shown as: a mark, and the title.
pub fn title_line(title: &str) -> (line: String)
    ensures
        line@ == TITLE_MARK@ + title@,
{
    String::from_str(TITLE_MARK).concat(title)
}

} // verus!
