//! Text building blocks for the formatters: decimal rendering of numbers and
//! colour-painted spans for the terminal.

use vstd::prelude::*;

verus! {

/// The character of one decimal digit.
pub open spec fn spec_digit(d: nat) -> char {
    if d == 0 {
        '0'
    } else if d == 1 {
        '1'
    } else if d == 2 {
        '2'
    } else if d == 3 {
        '3'
    } else if d == 4 {
        '4'
    } else if d == 5 {
        '5'
    } else if d == 6 {
        '6'
    } else if d == 7 {
        '7'
    } else if d == 8 {
        '8'
    } else {
        '9'
    }
}

/// The decimal rendering of a number, most significant digit first, no leading
/// zeroes (a lone zero for zero).
pub open spec fn spec_dec(n: nat) -> Seq<char>
    decreases n,
{
    if n < 10 {
        seq![spec_digit(n)]
    } else {
        spec_dec(n / 10) + seq![spec_digit(n % 10)]
    }
}

fn digit_str(d: u64) -> (r: &'static str)
    requires
        d < 10,
    ensures
        r@ == seq![spec_digit(d as nat)],
{
    let s = match d {
        0 => "0",
        1 => "1",
        2 => "2",
        3 => "3",
        4 => "4",
        5 => "5",
        6 => "6",
        7 => "7",
        8 => "8",
        _ => "9",
    };
    proof {
        reveal_strlit("0");
        reveal_strlit("1");
        reveal_strlit("2");
        reveal_strlit("3");
        reveal_strlit("4");
        reveal_strlit("5");
        reveal_strlit("6");
        reveal_strlit("7");
        reveal_strlit("8");
        reveal_strlit("9");
        assert(s@ =~= seq![spec_digit(d as nat)]);
    }
    s
}

/// The number rendered in decimal.
pub fn u64_to_string(n: u64) -> (r: String)
    ensures
        r@ == spec_dec(n as nat),
    decreases n,
{
    if n < 10 {
        digit_str(n).to_owned()
    } else {
        let mut s = u64_to_string(n / 10);
        s.append(digit_str(n % 10));
        s
    }
}

/// A foreground colour used by the formatters.
#[derive(Debug, Clone, Copy, PartialEq, Eq, Structural)]
pub enum Hue {
    Green,
    Red,
    Yellow,
}

/// The ANSI foreground code of a hue.
pub open spec fn spec_hue_code(h: Hue) -> Seq<char> {
    match h {
        Hue::Green => seq!['3', '2'],
        Hue::Red => seq!['3', '1'],
        Hue::Yellow => seq!['3', '3'],
    }
}

/// Text wrapped in a hue's foreground escape code and the reset code.
pub open spec fn spec_paint(h: Hue, s: Seq<char>) -> Seq<char> {
    seq!['\u{1b}', '['] + spec_hue_code(h) + seq!['m'] + s + seq!['\u{1b}', '[', '0', 'm']
}

/// Relies on ansi_term::Colour::paint: a painted span displays as the text
/// wrapped in the colour's foreground escape code (green 32, red 31,
/// yellow 33) and the reset code.
#[verifier::external_body]
pub(crate) fn paint(h: &Hue, text: &str) -> (r: String)
    ensures
        r@ == spec_paint(*h, text@),
{
    let colour = match h {
        Hue::Green => ansi_term::Colour::Green,
        Hue::Red => ansi_term::Colour::Red,
        Hue::Yellow => ansi_term::Colour::Yellow,
    };
    colour.paint(text).to_string()
}

} // verus!
