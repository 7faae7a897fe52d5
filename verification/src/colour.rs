//! Colour annotation of terminal values.
//!
//! Each semantic terminal category is rendered in one fixed colour. The
//! renderer wraps the value's text between that colour's ANSI foreground
//! escape sequence and the reset sequence; consumers that do not want the
//! escapes must strip them.

use vstd::prelude::*;

verus! {

/// The terminal colours the renderer uses, one per semantic category.
#[derive(Clone, Copy)]
pub enum Colour {
    Green,
    Blue,
    Purple,
    Cyan,
    Yellow,
}

/// The ANSI foreground code of a colour.
pub open spec fn colour_code(c: Colour) -> Seq<char> {
    match c {
        Colour::Green => seq!['3', '2'],
        Colour::Blue => seq!['3', '4'],
        Colour::Purple => seq!['3', '5'],
        Colour::Cyan => seq!['3', '6'],
        Colour::Yellow => seq!['3', '3'],
    }
}

/// `text` wrapped between the colour's ANSI foreground escape sequence and
/// the reset sequence.
pub open spec fn painted(c: Colour, text: Seq<char>) -> Seq<char> {
    seq!['\u{1b}', '['] + colour_code(c) + seq!['m'] + text + seq!['\u{1b}', '[', '0', 'm']
}

/// Relies on `ansi_term::Colour::paint` and the `Display` of the returned
/// `ANSIString`: for a bare foreground colour it writes `"\x1B[<code>m"`
/// before the text and the reset sequence `"\x1B[0m"` after it, with
/// foreground code 32 for green, 33 for yellow, 34 for blue, 35 for purple
/// and 36 for cyan.
#[verifier::external_body]
pub(crate) fn paint(c: Colour, text: &str) -> (r: String)
    ensures
        r@ == painted(c, text@),
{
    let colour = match c {
        Colour::Green => ansi_term::Colour::Green,
        Colour::Blue => ansi_term::Colour::Blue,
        Colour::Purple => ansi_term::Colour::Purple,
        Colour::Cyan => ansi_term::Colour::Cyan,
        Colour::Yellow => ansi_term::Colour::Yellow,
    };
    colour.paint(text).to_string()
}

} // verus!
