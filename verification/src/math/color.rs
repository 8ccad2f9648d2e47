//! Colors.

use vstd::prelude::*;
use vstd::utf8::is_char_boundary;
use vstd::string::StringSliceAdditionalSpecFns;
use std::num::ParseIntError;

verus! {

/// The error that parsing an integer gives.
#[verifier::external_type_specification]
#[verifier::external_body]
pub struct ExParseIntError(ParseIntError);

/// The value of an ASCII hexadecimal digit, upper or lower case.
pub open spec fn hex_digit_value(b: u8) -> Option<nat> {
    if 48 <= b <= 57 {
        Some((b - 48) as nat)
    } else if 97 <= b <= 102 {
        Some((b - 87) as nat)
    } else if 65 <= b <= 70 {
        Some((b - 55) as nat)
    } else {
        None
    }
}

/// The value of a run of hexadecimal digits, most significant first, or
/// `None` if one of them is not a hexadecimal digit.
pub open spec fn hex_digits_value(d: Seq<u8>) -> Option<nat>
    decreases d.len(),
{
    if d.len() == 0 {
        Some(0)
    } else {
        match (hex_digits_value(d.drop_last()), hex_digit_value(d.last())) {
            (Some(high), Some(low)) => Some(high * 16 + low),
            _ => None,
        }
    }
}

/// What parsing `s` as a base 16 `u8` gives: an optional `+` followed by at
/// least one hexadecimal digit, with a value that fits in a `u8`.
pub open spec fn hex_u8(s: Seq<u8>) -> Option<u8> {
    let d = if s.len() > 0 && s[0] == 43 { s.drop_first() } else { s };
    if d.len() == 0 {
        None
    } else {
        match hex_digits_value(d) {
            Some(v) => if v <= 255 { Some(v as u8) } else { None },
            None => None,
        }
    }
}

/// The value of two hexadecimal digits, or `None` when one of the two bytes
/// is not a hexadecimal digit.
pub open spec fn hex_pair(b: Seq<u8>) -> Option<u8> {
    match (hex_digit_value(b[0]), hex_digit_value(b[1])) {
        (Some(high), Some(low)) => Some((high * 16 + low) as u8),
        _ => None,
    }
}

/// On two bytes that do not start with `+`, parsing as a base 16 `u8` reads
/// them as two hexadecimal digits.
proof fn lemma_hex_u8_pair(b: Seq<u8>)
    requires
        b.len() == 2,
        b[0] != 43,
    ensures
        hex_u8(b) == hex_pair(b),
{
    reveal_with_fuel(hex_digits_value, 3);
    assert(b.drop_last().drop_last() =~= Seq::<u8>::empty());
    assert(b.drop_last().last() == b[0]);
}

/// Parses `s` as a base 16 number with `u8::from_str_radix`. Its
/// documentation states that the string is an optional `+` followed by
/// digits, anything else being an error, and that a value out of range is an
/// error; the contract says that it succeeds exactly then, with that value.
/// Which error comes back is left unsaid.
#[verifier::external_body]
fn parse_hex_u8(s: &str) -> (r: Result<u8, ParseIntError>)
    ensures
        match r {
            Ok(v) => hex_u8(s.spec_bytes()) == Some(v),
            Err(_) => hex_u8(s.spec_bytes()) is None,
        },
{
    u8::from_str_radix(s, 16)
}

/// Takes the bytes `from..to` of `s` with `str`'s indexing by a range, which
/// its documentation states gives that part of the string and panics unless
/// both ends lie on character boundaries in order within the string.
#[verifier::external_body]
fn str_range(s: &str, from: usize, to: usize) -> (r: &str)
    requires
        from <= to <= s.spec_bytes().len(),
        is_char_boundary(s.spec_bytes(), from as int),
        is_char_boundary(s.spec_bytes(), to as int),
    ensures
        r.spec_bytes() == s.spec_bytes().subrange(from as int, to as int),
{
    &s[from..to]
}

/// An RGBA color.
#[derive(Default, Clone, Copy, PartialEq, Eq, Hash, Debug)]
pub struct Color<C> {
    /// Red component.
    pub r: C,
    /// Green component.
    pub g: C,
    /// Blue component.
    pub b: C,
    /// Alpha component.
    pub a: C,
}

/// The color with the given components.
pub open spec fn rgba8(r: u8, g: u8, b: u8, a: u8) -> Color<u8> {
    Color { r, g, b, a }
}

/// Parses the two bytes of `s` at `i` as two hexadecimal digits. A pair that
/// starts with `+`, which `u8::from_str_radix` would take for a sign, fails
/// with the error that parsing the sign alone gives.
fn parse_pair(s: &str, i: usize) -> (r: Result<u8, ParseIntError>)
    requires
        i + 2 <= s.spec_bytes().len(),
        is_char_boundary(s.spec_bytes(), i as int),
        is_char_boundary(s.spec_bytes(), i + 2),
    ensures
        match r {
            Ok(v) => hex_pair(s.spec_bytes().subrange(i as int, i + 2)) == Some(v),
            Err(_) => hex_pair(s.spec_bytes().subrange(i as int, i + 2)) is None,
        },
{
    let len = s.as_bytes().len();
    let end = i + 2;
    let pair = str_range(s, i, end);
    let bytes = pair.as_bytes();
    if bytes[0] == 43 {
        let sign = "+";
        proof {
            reveal_strlit("+");
            vstd::string::is_ascii_spec_bytes(sign);
            assert(sign.spec_bytes() =~= seq![43u8]);
        }
        return match parse_hex_u8(sign) {
            Ok(v) => Ok(v),
            Err(e) => Err(e),
        };
    }
    proof {
        lemma_hex_u8_pair(pair.spec_bytes());
    }
    parse_hex_u8(pair)
}

impl Color<u8> {
    /// Absolute black.
    pub fn black() -> (c: Self)
        ensures
            c == rgba8(0, 0, 0, 255),
    {
        Color { r: 0, g: 0, b: 0, a: 255 }
    }

    /// Absolute white.
    pub fn white() -> (c: Self)
        ensures
            c == rgba8(255, 255, 255, 255),
    {
        Color { r: 255, g: 255, b: 255, a: 255 }
    }

    /// Absolute red.
    pub fn red() -> (c: Self)
        ensures
            c == rgba8(255, 0, 0, 255),
    {
        Color { r: 255, g: 0, b: 0, a: 255 }
    }

    /// Absolute green.
    pub fn green() -> (c: Self)
        ensures
            c == rgba8(0, 255, 0, 255),
    {
        Color { r: 0, g: 255, b: 0, a: 255 }
    }

    /// Absolute blue.
    pub fn blue() -> (c: Self)
        ensures
            c == rgba8(0, 0, 255, 255),
    {
        Color { r: 0, g: 0, b: 255, a: 255 }
    }

    /// Returns a new opaque color with its `r`, `g`, and `b` components set.
    pub fn from_rgb(r: u8, g: u8, b: u8) -> (c: Self)
        ensures
            c == rgba8(r, g, b, 255),
    {
        Color { r, g, b, a: 255 }
    }

    /// Returns a new color with its `r`, `g`, `b`, and `a` components set.
    pub fn from_rgba(r: u8, g: u8, b: u8, a: u8) -> (c: Self)
        ensures
            c == rgba8(r, g, b, a),
    {
        Color { r, g, b, a }
    }

    /// Returns a new opaque grayscale color with some value.
    pub fn from_value(v: u8) -> (c: Self)
        ensures
            c == rgba8(v, v, v, 255),
    {
        Color { r: v, g: v, b: v, a: 255 }
    }

    /// Returns a white color with some alpha.
    pub fn from_alpha(a: u8) -> (c: Self)
        ensures
            c == rgba8(255, 255, 255, a),
    {
        Color { r: 255, g: 255, b: 255, a }
    }

    /// Returns the `r`, `g`, and `b` components of a color.
    pub fn rgb(&self) -> (t: (u8, u8, u8))
        ensures
            t == (self.r, self.g, self.b),
    {
        (self.r, self.g, self.b)
    }

    /// Returns the `r`, `g`, `b`, and `a` components of a color.
    pub fn rgba(&self) -> (t: (u8, u8, u8, u8))
        ensures
            t == (self.r, self.g, self.b, self.a),
    {
        (self.r, self.g, self.b, self.a)
    }

    /// Converts a hexcode of the form `0xRRGGBB` to an opaque color.
    pub fn from_hex_rgb(v: u32) -> (c: Self)
        ensures
            c == rgba8(((v >> 16) & 0xff) as u8, ((v >> 8) & 0xff) as u8, (v & 0xff) as u8, 255),
    {
        Color {
            r: ((v >> 16) & 0xff) as u8,
            g: ((v >> 8) & 0xff) as u8,
            b: (v & 0xff) as u8,
            a: 255,
        }
    }

    /// Converts a hexcode of the form `0xRRGGBBAA` to a color.
    pub fn from_hex_rgba(v: u32) -> (c: Self)
        ensures
            c == rgba8(
                ((v >> 24) & 0xff) as u8,
                ((v >> 16) & 0xff) as u8,
                ((v >> 8) & 0xff) as u8,
                (v & 0xff) as u8,
            ),
    {
        Color {
            r: ((v >> 24) & 0xff) as u8,
            g: ((v >> 16) & 0xff) as u8,
            b: ((v >> 8) & 0xff) as u8,
            a: (v & 0xff) as u8,
        }
    }

    /// Converts a hexcode of the form `"RRGGBB"` or `"RRGGBBAA"` to a color.
    /// The first six bytes give the red, green and blue components, two hex
    /// digits each; when the string has at least eight bytes, the next two
    /// give the alpha component, else the color is opaque. Anything after that
    /// is ignored. It fails at the first pair that is not two hex digits; the
    /// pairs after it are not looked at.
    pub fn from_hex_str(str: &str) -> (res: Result<Self, ParseIntError>)
        requires
            str.spec_bytes().len() >= 2,
            is_char_boundary(str.spec_bytes(), 2),
            hex_pair(str.spec_bytes().subrange(0, 2)) is Some ==> str.spec_bytes().len() >= 4 && is_char_boundary(
                str.spec_bytes(),
                4,
            ),
            hex_pair(str.spec_bytes().subrange(0, 2)) is Some && hex_pair(str.spec_bytes().subrange(2, 4)) is Some
                ==> str.spec_bytes().len() >= 6 && is_char_boundary(str.spec_bytes(), 6),
            hex_pair(str.spec_bytes().subrange(0, 2)) is Some && hex_pair(str.spec_bytes().subrange(2, 4)) is Some
                && hex_pair(str.spec_bytes().subrange(4, 6)) is Some && str.spec_bytes().len() >= 8
                ==> is_char_boundary(str.spec_bytes(), 8),
        ensures
            ({
                let b = str.spec_bytes();
                let r = hex_pair(b.subrange(0, 2));
                let g = hex_pair(b.subrange(2, 4));
                let bl = hex_pair(b.subrange(4, 6));
                let a = if b.len() >= 8 { hex_pair(b.subrange(6, 8)) } else { Some(255u8) };
                match res {
                    Ok(c) => r is Some && g is Some && bl is Some && a is Some
                        && c == rgba8(r->0, g->0, bl->0, a->0),
                    Err(_) => r is None || g is None || bl is None || a is None,
                }
            }),
    {
        proof {
            vstd::utf8::encode_utf8_valid_utf8(str@);
            vstd::utf8::is_char_boundary_start_end_of_seq(str.spec_bytes());
        }
        let r = match parse_pair(str, 0) {
            Ok(v) => v,
            Err(e) => return Err(e),
        };
        let g = match parse_pair(str, 2) {
            Ok(v) => v,
            Err(e) => return Err(e),
        };
        let b = match parse_pair(str, 4) {
            Ok(v) => v,
            Err(e) => return Err(e),
        };
        let len = str.as_bytes().len();
        let a = if len >= 8 {
            match parse_pair(str, 6) {
                Ok(v) => v,
                Err(e) => return Err(e),
            }
        } else {
            255
        };
        Ok(Color { r, g, b, a })
    }

    /// Converts the color to [`u8`] representation, which it already has.
    pub fn to_u8(&self) -> (c: Color<u8>)
        ensures
            c == *self,
    {
        *self
    }
}

/// A `0xRRGGBB` code gives the color of the `0xRRGGBBAA` code with an opaque
/// alpha: [`Color::from_hex_rgb`] of `v` is [`Color::from_hex_rgba`] of
/// `(v << 8) | 0xff`.
pub proof fn lemma_hex_rgb_is_opaque_rgba(v: u32)
    requires
        v < 0x100_0000,
    ensures
        ({
            let w = ((v << 8u32) | 0xffu32) as u32;
            &&& ((w >> 24u32) & 0xffu32) as u8 == ((v >> 16u32) & 0xffu32) as u8
            &&& ((w >> 16u32) & 0xffu32) as u8 == ((v >> 8u32) & 0xffu32) as u8
            &&& ((w >> 8u32) & 0xffu32) as u8 == (v & 0xffu32) as u8
            &&& (w & 0xffu32) as u8 == 255
        }),
{
    assert(({
        let w = ((v << 8u32) | 0xffu32) as u32;
        &&& ((w >> 24u32) & 0xffu32) as u8 == ((v >> 16u32) & 0xffu32) as u8
        &&& ((w >> 16u32) & 0xffu32) as u8 == ((v >> 8u32) & 0xffu32) as u8
        &&& ((w >> 8u32) & 0xffu32) as u8 == (v & 0xffu32) as u8
        &&& (w & 0xffu32) as u8 == 255
    })) by (bit_vector)
        requires
            v < 0x100_0000,
    ;
}

} // verus!
