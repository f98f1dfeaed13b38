//! RGBA colors and the palette the host menu offers.

use vstd::prelude::*;

verus! {

/// An 8-bit-per-channel RGBA color.
#[derive(Clone, Copy, PartialEq, Eq, Structural, Debug)]
pub struct Rgba {
    pub r: u8,
    pub g: u8,
    pub b: u8,
    pub a: u8,
}

impl Rgba {
    /// An opaque color from its three channels.
    pub fn rgb(r: u8, g: u8, b: u8) -> (c: Rgba)
        ensures
            c == (Rgba { r, g, b, a: 255 }),
    {
        Rgba { r, g, b, a: 255 }
    }

    pub fn rgba(r: u8, g: u8, b: u8, a: u8) -> (c: Rgba)
        ensures
            c == (Rgba { r, g, b, a }),
    {
        Rgba { r, g, b, a }
    }

    pub open spec fn red_spec() -> Rgba {
        Rgba { r: 255, g: 0, b: 0, a: 255 }
    }

    /// The default drawing color.
    pub fn red() -> (c: Rgba)
        ensures
            c == Rgba::red_spec(),
    {
        Rgba { r: 255, g: 0, b: 0, a: 255 }
    }

    pub fn green() -> (c: Rgba)
        ensures
            c == (Rgba { r: 0, g: 128, b: 0, a: 255 }),
    {
        Rgba { r: 0, g: 128, b: 0, a: 255 }
    }

    pub fn black() -> (c: Rgba)
        ensures
            c == (Rgba { r: 0, g: 0, b: 0, a: 255 }),
    {
        Rgba { r: 0, g: 0, b: 0, a: 255 }
    }

    pub fn white() -> (c: Rgba)
        ensures
            c == (Rgba { r: 255, g: 255, b: 255, a: 255 }),
    {
        Rgba { r: 255, g: 255, b: 255, a: 255 }
    }

    pub fn aqua() -> (c: Rgba)
        ensures
            c == (Rgba { r: 0, g: 255, b: 255, a: 255 }),
    {
        Rgba { r: 0, g: 255, b: 255, a: 255 }
    }

    pub fn blue() -> (c: Rgba)
        ensures
            c == (Rgba { r: 0, g: 0, b: 255, a: 255 }),
    {
        Rgba { r: 0, g: 0, b: 255, a: 255 }
    }

    pub fn fuchsia() -> (c: Rgba)
        ensures
            c == (Rgba { r: 255, g: 0, b: 255, a: 255 }),
    {
        Rgba { r: 255, g: 0, b: 255, a: 255 }
    }

    pub fn gray() -> (c: Rgba)
        ensures
            c == (Rgba { r: 128, g: 128, b: 128, a: 255 }),
    {
        Rgba { r: 128, g: 128, b: 128, a: 255 }
    }

    pub fn maroon() -> (c: Rgba)
        ensures
            c == (Rgba { r: 128, g: 0, b: 0, a: 255 }),
    {
        Rgba { r: 128, g: 0, b: 0, a: 255 }
    }

    pub fn yellow() -> (c: Rgba)
        ensures
            c == (Rgba { r: 255, g: 255, b: 0, a: 255 }),
    {
        Rgba { r: 255, g: 255, b: 0, a: 255 }
    }

    pub fn silver() -> (c: Rgba)
        ensures
            c == (Rgba { r: 192, g: 192, b: 192, a: 255 }),
    {
        Rgba { r: 192, g: 192, b: 192, a: 255 }
    }
}

/// The character standing for one hexadecimal digit.
pub open spec fn hex_digit_spec(d: u8) -> char {
    if d == 0 { '0' } else if d == 1 { '1' } else if d == 2 { '2' } else if d == 3 { '3' }
    else if d == 4 { '4' } else if d == 5 { '5' } else if d == 6 { '6' } else if d == 7 { '7' }
    else if d == 8 { '8' } else if d == 9 { '9' } else if d == 10 { 'A' } else if d == 11 { 'B' }
    else if d == 12 { 'C' } else if d == 13 { 'D' } else if d == 14 { 'E' } else { 'F' }
}

fn hex_digit(d: u8) -> (c: char)
    requires
        d < 16,
    ensures
        c == hex_digit_spec(d),
{
    if d == 0 { '0' } else if d == 1 { '1' } else if d == 2 { '2' } else if d == 3 { '3' }
    else if d == 4 { '4' } else if d == 5 { '5' } else if d == 6 { '6' } else if d == 7 { '7' }
    else if d == 8 { '8' } else if d == 9 { '9' } else if d == 10 { 'A' } else if d == 11 { 'B' }
    else if d == 12 { 'C' } else if d == 13 { 'D' } else if d == 14 { 'E' } else { 'F' }
}

/// The seven characters of a `#RRGGBB` label for a color, upper-case, the
/// form a host menu displays for a sampled custom color.
pub open spec fn hex_label_spec(c: Rgba) -> Seq<char> {
    seq![
        '#',
        hex_digit_spec(c.r / 16),
        hex_digit_spec(c.r % 16),
        hex_digit_spec(c.g / 16),
        hex_digit_spec(c.g % 16),
        hex_digit_spec(c.b / 16),
        hex_digit_spec(c.b % 16),
    ]
}

/// Builds the `#RRGGBB` menu label of a color.
pub fn hex_label(c: Rgba) -> (out: Vec<char>)
    ensures
        out@ == hex_label_spec(c),
{
    let mut out: Vec<char> = Vec::new();
    out.push('#');
    out.push(hex_digit(c.r / 16));
    out.push(hex_digit(c.r % 16));
    out.push(hex_digit(c.g / 16));
    out.push(hex_digit(c.g % 16));
    out.push(hex_digit(c.b / 16));
    out.push(hex_digit(c.b % 16));
    proof {
        assert(out@ =~= hex_label_spec(c));
    }
    out
}

} // verus!
