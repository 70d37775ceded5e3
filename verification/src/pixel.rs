//! Pixels on the wire and colours in text form.
//!
//! A pixel travels as seven bytes: `x` and `y` as little-endian 16-bit
//! numbers, then red, green and blue. A colour is stored as text in the form
//! `#RRGGBB`, written with upper-case digits and read in either case.

use vstd::prelude::*;
use vstd::std_specs::convert::FromSpecImpl;

verus! {

/// One painted point: where it is and what colour it has.
#[derive(Clone, Copy, Debug, PartialEq, Eq)]
pub struct Pixel {
    pub x: u16,
    pub y: u16,
    pub color: (u8, u8, u8),
}

/// The seven bytes that stand for `p` on the wire.
pub open spec fn pixel_record(p: Pixel) -> Seq<u8> {
    seq![
        (p.x % 256) as u8,
        (p.x / 256) as u8,
        (p.y % 256) as u8,
        (p.y / 256) as u8,
        p.color.0,
        p.color.1,
        p.color.2,
    ]
}

/// The 16-bit number whose little-endian bytes are `lo`, `hi`.
pub open spec fn le_u16(lo: u8, hi: u8) -> int {
    lo as int + 256 * (hi as int)
}

impl Pixel {
    /// The wire form of this pixel.
    pub fn to_bytes(&self) -> (res: [u8; 7])
        ensures
            res@ == pixel_record(*self),
    {
        let res: [u8; 7] = [
            (self.x % 256) as u8,
            (self.x / 256) as u8,
            (self.y % 256) as u8,
            (self.y / 256) as u8,
            self.color.0,
            self.color.1,
            self.color.2,
        ];
        res
    }
}

impl From<&Pixel> for [u8; 7] {
    /// The wire form of a pixel.
    fn from(pixel: &Pixel) -> (res: [u8; 7]) {
        pixel.to_bytes()
    }
}

impl FromSpecImpl<&Pixel> for [u8; 7] {
    open spec fn obeys_from_spec() -> bool {
        true
    }

    open spec fn from_spec(pixel: &Pixel) -> [u8; 7] {
        [
            (pixel.x % 256) as u8,
            (pixel.x / 256) as u8,
            (pixel.y % 256) as u8,
            (pixel.y / 256) as u8,
            pixel.color.0,
            pixel.color.1,
            pixel.color.2,
        ]
    }
}

/// The upper-case hexadecimal digit for `n`, where `0 <= n < 16`.
pub open spec fn hex_digit(n: int) -> char {
    if n < 10 {
        ((48 + n) as u8) as char
    } else {
        ((55 + n) as u8) as char
    }
}

/// Whether `c` is one of `0-9`, `a-f`, `A-F`.
pub open spec fn is_hex_digit(c: char) -> bool {
    ('0' <= c <= '9') || ('a' <= c <= 'f') || ('A' <= c <= 'F')
}

/// The number a hexadecimal digit stands for.
pub open spec fn hex_value(c: char) -> int {
    if '0' <= c <= '9' {
        c as int - 48
    } else if 'a' <= c <= 'f' {
        c as int - 87
    } else {
        c as int - 55
    }
}

/// The text form of a colour: `#` and two upper-case digits per channel.
pub open spec fn color_hex(color: (u8, u8, u8)) -> Seq<char> {
    seq![
        '#',
        hex_digit(color.0 as int / 16),
        hex_digit(color.0 as int % 16),
        hex_digit(color.1 as int / 16),
        hex_digit(color.1 as int % 16),
        hex_digit(color.2 as int / 16),
        hex_digit(color.2 as int % 16),
    ]
}

/// Whether `s` is seven characters long and holds six hexadecimal digits
/// after the first one.
pub open spec fn has_hex_digits(s: Seq<char>) -> bool {
    &&& s.len() == 7
    &&& forall|i: int| 1 <= i < 7 ==> is_hex_digit(#[trigger] s[i])
}

/// Whether `s` has the form `#RRGGBB`.
pub open spec fn is_hex_color(s: Seq<char>) -> bool {
    &&& has_hex_digits(s)
    &&& s[0] == '#'
}

/// The colour that the six digits of a text stand for, two digits to a
/// channel. The first character is not part of the value.
pub open spec fn hex_rgb(s: Seq<char>) -> (u8, u8, u8) {
    (
        (16 * hex_value(s[1]) + hex_value(s[2])) as u8,
        (16 * hex_value(s[3]) + hex_value(s[4])) as u8,
        (16 * hex_value(s[5]) + hex_value(s[6])) as u8,
    )
}

/// Reading back what was written gives the colour that was written.
pub proof fn lemma_hex_round_trip(color: (u8, u8, u8))
    ensures
        is_hex_color(color_hex(color)),
        hex_rgb(color_hex(color)) == color,
{
    lemma_hex_digit_value(color.0 as int / 16);
    lemma_hex_digit_value(color.0 as int % 16);
    lemma_hex_digit_value(color.1 as int / 16);
    lemma_hex_digit_value(color.1 as int % 16);
    lemma_hex_digit_value(color.2 as int / 16);
    lemma_hex_digit_value(color.2 as int % 16);
}

/// A digit written for `n` is a hexadecimal digit and reads back as `n`.
pub proof fn lemma_hex_digit_value(n: int)
    requires
        0 <= n < 16,
    ensures
        is_hex_digit(hex_digit(n)),
        hex_value(hex_digit(n)) == n,
{
}

fn hex_digit_str(n: u8) -> (s: &'static str)
    requires
        n < 16,
    ensures
        s@ == seq![hex_digit(n as int)],
{
    proof {
        reveal_strlit("0");
        reveal_strlit("1");
        reveal_strlit("2");
        reveal_strlit("3");
        reveal_strlit("4");
        reveal_strlit("5");
        reveal_strlit("6");
        reveal_strlit("7");
        reveal_strlit("8");
        reveal_strlit("9");
        reveal_strlit("A");
        reveal_strlit("B");
        reveal_strlit("C");
        reveal_strlit("D");
        reveal_strlit("E");
        reveal_strlit("F");
    }
    let s: &'static str = match n {
        0 => "0",
        1 => "1",
        2 => "2",
        3 => "3",
        4 => "4",
        5 => "5",
        6 => "6",
        7 => "7",
        8 => "8",
        9 => "9",
        10 => "A",
        11 => "B",
        12 => "C",
        13 => "D",
        14 => "E",
        _ => "F",
    };
    s
}

/// Writes a colour as `#RRGGBB` with upper-case digits.
pub fn color_to_hex(color: (u8, u8, u8)) -> (hex: String)
    ensures
        hex@ == color_hex(color),
{
    proof {
        reveal_strlit("#");
    }
    let mut hex = String::from_str("#");
    hex.append(hex_digit_str(color.0 / 16));
    hex.append(hex_digit_str(color.0 % 16));
    hex.append(hex_digit_str(color.1 / 16));
    hex.append(hex_digit_str(color.1 % 16));
    hex.append(hex_digit_str(color.2 / 16));
    hex.append(hex_digit_str(color.2 % 16));
    hex
}

fn digit_value(c: char) -> (v: Option<u8>)
    ensures
        v is Some <==> is_hex_digit(c),
        v matches Some(n) ==> n == hex_value(c) && n < 16,
{
    let code: u32 = c as u32;
    if 48 <= code && code <= 57 {
        Some((code - 48) as u8)
    } else if 97 <= code && code <= 102 {
        Some((code - 87) as u8)
    } else if 65 <= code && code <= 70 {
        Some((code - 55) as u8)
    } else {
        None
    }
}

/// Whether `color` has the form `#RRGGBB`.
pub fn check_color(color: &str) -> (ok: bool)
    ensures
        ok == is_hex_color(color@),
{
    if color.unicode_len() != 7 {
        return false;
    }
    if color.get_char(0) != '#' {
        return false;
    }
    let mut i: usize = 1;
    while i < 7
        invariant
            1 <= i <= 7,
            color@.len() == 7,
            color@[0] == '#',
            forall|j: int| 1 <= j < i ==> is_hex_digit(#[trigger] color@[j]),
        decreases 7 - i,
    {
        if digit_value(color.get_char(i)).is_none() {
            return false;
        }
        i = i + 1;
    }
    true
}

fn channel(hex: &str, at: usize) -> (v: u8)
    requires
        has_hex_digits(hex@),
        at == 1 || at == 3 || at == 5,
    ensures
        v == 16 * hex_value(hex@[at as int]) + hex_value(hex@[at + 1]),
{
    let hi: Option<u8> = digit_value(hex.get_char(at));
    let lo: Option<u8> = digit_value(hex.get_char(at + 1));
    match (hi, lo) {
        (Some(h), Some(l)) => 16 * h + l,
        _ => 0,
    }
}

/// Reads the six digits of a colour as its three channels. The text is as
/// long as `#RRGGBB`; its first character is passed over.
pub fn hex_to_bin(hex: &str) -> (rgb: [u8; 3])
    requires
        has_hex_digits(hex@),
    ensures
        rgb@.len() == 3,
        (rgb@[0], rgb@[1], rgb@[2]) == hex_rgb(hex@),
{
    let r: u8 = channel(hex, 1);
    let g: u8 = channel(hex, 3);
    let b: u8 = channel(hex, 5);
    [r, g, b]
}

/// Reads the six digits of a colour as a triple. The text is as long as
/// `#RRGGBB`; its first character is passed over.
pub fn hex_to_color(hex: &str) -> (rgb: (u8, u8, u8))
    requires
        has_hex_digits(hex@),
    ensures
        rgb == hex_rgb(hex@),
{
    let r: u8 = channel(hex, 1);
    let g: u8 = channel(hex, 3);
    let b: u8 = channel(hex, 5);
    (r, g, b)
}

/// Reads a colour from any text: the colour where the text has the form
/// `#RRGGBB`, nothing otherwise.
pub fn parse_color(hex: &str) -> (rgb: Option<(u8, u8, u8)>)
    ensures
        rgb == (if is_hex_color(hex@) {
            Some(hex_rgb(hex@))
        } else {
            None
        }),
{
    if check_color(hex) {
        Some(hex_to_color(hex))
    } else {
        None
    }
}

} // verus!
