//! Prompt label styling: an accent color, a boldness flag, and the rule that
//! resolves the caller's optional styling requests into a concrete style.

use colored::Colorize;
use vstd::prelude::*;

verus! {

/// A terminal foreground color for prompt labels.
#[derive(Clone, Copy, PartialEq, Eq, Structural, Debug)]
pub enum Color {
    Black,
    Red,
    Green,
    Yellow,
    Blue,
    Magenta,
    Cyan,
    White,
}

/// A fully resolved label style: one color and a boldness decision.
#[derive(Clone, Copy, PartialEq, Eq, Structural, Debug)]
pub struct Style {
    pub color: Color,
    pub bold: bool,
}

/// The style composition rule. `Color::Cyan` is the accent color.
///
/// - boldness unset: the accent color, bold, and a requested color is ignored;
/// - boldness set to `b`: the requested color, or the accent color when none
///   was requested, with boldness `b`.
pub open spec fn spec_resolve(color: Option<Color>, is_bold: Option<bool>) -> Style {
    match is_bold {
        Option::None => Style { color: Color::Cyan, bold: true },
        Option::Some(b) => Style {
            color: match color {
                Option::Some(c) => c,
                Option::None => Color::Cyan,
            },
            bold: b,
        },
    }
}

impl Style {
    /// Resolves the optional color and tri-state boldness flag into a
    /// concrete style, following the composition rule above.
    pub fn resolve(color: Option<Color>, is_bold: Option<bool>) -> (s: Style)
        ensures
            s == spec_resolve(color, is_bold),
    {
        match is_bold {
            Option::None => Style { color: Color::Cyan, bold: true },
            Option::Some(b) => Style {
                color: match color {
                    Option::Some(c) => c,
                    Option::None => Color::Cyan,
                },
                bold: b,
            },
        }
    }
}

/// Relies on colored's `Colorize::color`, `Colorize::bold` and the
/// `ColoredString` rendering through `to_string`: the text wrapped in ANSI
/// escape codes for the given color and boldness. Whether the codes are
/// emitted at all depends on the process environment and the terminal, so
/// nothing is claimed of the result.
#[verifier::external_body]
pub(crate) fn render_styled(text: &str, style: &Style) -> String {
    let c = match style.color {
        Color::Black => colored::Color::Black,
        Color::Red => colored::Color::Red,
        Color::Green => colored::Color::Green,
        Color::Yellow => colored::Color::Yellow,
        Color::Blue => colored::Color::Blue,
        Color::Magenta => colored::Color::Magenta,
        Color::Cyan => colored::Color::Cyan,
        Color::White => colored::Color::White,
    };
    let s = text.color(c);
    (if style.bold { s.bold() } else { s }).to_string()
}

} // verus!
