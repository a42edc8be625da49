//! Colours for display, and their hexadecimal notation.

use vstd::prelude::*;
use vstd::string::StringSliceAdditionalSpecFns;

verus! {

/// An RGBA colour.
#[derive(Clone, Copy, Debug, PartialEq, Eq, Structural)]
pub struct Color {
    pub r: u8,
    pub g: u8,
    pub b: u8,
    pub a: u8,
}

/// The value of a hexadecimal digit (either case), if `c` is one.
pub open spec fn hex_digit_value(c: u8) -> Option<u8> {
    if 48 <= c && c <= 57 {
        Some((c - 48) as u8)
    } else if 97 <= c && c <= 102 {
        Some((c - 87) as u8)
    } else if 65 <= c && c <= 70 {
        Some((c - 55) as u8)
    } else {
        None
    }
}

/// The value of a two-byte hexadecimal field, read as an unsigned integer
/// is read in base 16: two digits, or a plus sign and one digit.
pub open spec fn field_value(c0: u8, c1: u8) -> Option<u8> {
    if c0 == 43 {
        hex_digit_value(c1)
    } else {
        match (hex_digit_value(c0), hex_digit_value(c1)) {
            (Some(h), Some(l)) => Some((16 * h + l) as u8),
            _ => None,
        }
    }
}

/// `s` without its leading `#` characters.
pub open spec fn strip_hashes(s: Seq<u8>) -> Seq<u8>
    decreases s.len(),
{
    if s.len() > 0 && s[0] == 35 {
        strip_hashes(s.subrange(1, s.len() as int))
    } else {
        s
    }
}

/// The digits after the leading `#` characters have an accepted length.
pub open spec fn hex_length_ok(s: Seq<u8>) -> bool {
    strip_hashes(s).len() == 6 || strip_hashes(s).len() == 8
}

/// The colour that the bytes `s` denote: after leading `#` characters, six
/// or eight hexadecimal digits in pairs for red, green, blue and optionally
/// alpha (opaque when absent).
pub open spec fn parse_hex(s: Seq<u8>) -> Option<Color> {
    let h = strip_hashes(s);
    if h.len() != 6 && h.len() != 8 {
        None
    } else {
        match (field_value(h[0], h[1]), field_value(h[2], h[3]), field_value(h[4], h[5])) {
            (Some(r), Some(g), Some(b)) => {
                if h.len() == 8 {
                    match field_value(h[6], h[7]) {
                        Some(a) => Some(Color { r, g, b, a }),
                        None => None,
                    }
                } else {
                    Some(Color { r, g, b, a: 255 })
                }
            },
            _ => None,
        }
    }
}

/// The lower-case hexadecimal digit for `d` (below 16).
pub open spec fn lower_hex_char(d: u8) -> char {
    if d < 10 {
        (48 + d) as char
    } else {
        (87 + d) as char
    }
}

/// Two lower-case hexadecimal digits for `v`.
pub open spec fn hex_pair(v: u8) -> Seq<char> {
    seq![lower_hex_char(v / 16), lower_hex_char(v % 16)]
}

/// The notation of a colour: `#rrggbb`, with `aa` appended unless opaque.
pub open spec fn hex_notation(c: Color) -> Seq<char> {
    let rgb = seq!['#'] + hex_pair(c.r) + hex_pair(c.g) + hex_pair(c.b);
    if c.a == 255 {
        rgb
    } else {
        rgb + hex_pair(c.a)
    }
}

fn digit_value(c: u8) -> (r: Option<u8>)
    ensures
        r == hex_digit_value(c),
{
    if 48 <= c && c <= 57 {
        Some(c - 48)
    } else if 97 <= c && c <= 102 {
        Some(c - 87)
    } else if 65 <= c && c <= 70 {
        Some(c - 55)
    } else {
        None
    }
}

fn read_field(c0: u8, c1: u8) -> (r: Option<u8>)
    ensures
        r == field_value(c0, c1),
{
    if c0 == 43 {
        digit_value(c1)
    } else {
        match (digit_value(c0), digit_value(c1)) {
            (Some(h), Some(l)) => Some(16 * h + l),
            _ => None,
        }
    }
}

fn hex_digit_str(d: u8) -> (r: &'static str)
    requires
        d < 16,
    ensures
        r@ == seq![lower_hex_char(d)],
{
    if d == 0 {
        proof { reveal_strlit("0"); }
        assert("0"@ =~= seq![lower_hex_char(d)]);
        "0"
    } else if d == 1 {
        proof { reveal_strlit("1"); }
        assert("1"@ =~= seq![lower_hex_char(d)]);
        "1"
    } else if d == 2 {
        proof { reveal_strlit("2"); }
        assert("2"@ =~= seq![lower_hex_char(d)]);
        "2"
    } else if d == 3 {
        proof { reveal_strlit("3"); }
        assert("3"@ =~= seq![lower_hex_char(d)]);
        "3"
    } else if d == 4 {
        proof { reveal_strlit("4"); }
        assert("4"@ =~= seq![lower_hex_char(d)]);
        "4"
    } else if d == 5 {
        proof { reveal_strlit("5"); }
        assert("5"@ =~= seq![lower_hex_char(d)]);
        "5"
    } else if d == 6 {
        proof { reveal_strlit("6"); }
        assert("6"@ =~= seq![lower_hex_char(d)]);
        "6"
    } else if d == 7 {
        proof { reveal_strlit("7"); }
        assert("7"@ =~= seq![lower_hex_char(d)]);
        "7"
    } else if d == 8 {
        proof { reveal_strlit("8"); }
        assert("8"@ =~= seq![lower_hex_char(d)]);
        "8"
    } else if d == 9 {
        proof { reveal_strlit("9"); }
        assert("9"@ =~= seq![lower_hex_char(d)]);
        "9"
    } else if d == 10 {
        proof { reveal_strlit("a"); }
        assert("a"@ =~= seq![lower_hex_char(d)]);
        "a"
    } else if d == 11 {
        proof { reveal_strlit("b"); }
        assert("b"@ =~= seq![lower_hex_char(d)]);
        "b"
    } else if d == 12 {
        proof { reveal_strlit("c"); }
        assert("c"@ =~= seq![lower_hex_char(d)]);
        "c"
    } else if d == 13 {
        proof { reveal_strlit("d"); }
        assert("d"@ =~= seq![lower_hex_char(d)]);
        "d"
    } else if d == 14 {
        proof { reveal_strlit("e"); }
        assert("e"@ =~= seq![lower_hex_char(d)]);
        "e"
    } else if d == 15 {
        proof { reveal_strlit("f"); }
        assert("f"@ =~= seq![lower_hex_char(d)]);
        "f"
    } else {
        proof { reveal_strlit("f"); }
        assert("f"@ =~= seq![lower_hex_char(d)]);
        "f"
    }
}

fn append_pair(s: &mut String, v: u8)
    ensures
        final(s)@ == old(s)@ + hex_pair(v),
{
    s.append(hex_digit_str(v / 16));
    s.append(hex_digit_str(v % 16));
    assert(final(s)@ =~= old(s)@ + hex_pair(v));
}

impl Color {
    /// The colour with the given channels.
    pub fn new(r: u8, g: u8, b: u8, a: u8) -> (c: Color)
        ensures
            c == (Color { r, g, b, a }),
    {
        Color { r, g, b, a }
    }

    /// The opaque colour with the given channels.
    pub fn rgb(r: u8, g: u8, b: u8) -> (c: Color)
        ensures
            c == (Color { r, g, b, a: 255 }),
    {
        Color::new(r, g, b, 255)
    }

    /// The colour written `hex` (see `parse_hex`). Fails with a message
    /// naming the length, or the digits, that are wrong.
    pub fn from_hex(hex: &str) -> (r: Result<Color, String>)
        ensures
            parse_hex(hex.spec_bytes()) matches Some(c) ==> r == Ok::<Color, String>(c),
            parse_hex(hex.spec_bytes()) is None ==> r is Err,
            r matches Err(m) ==> m@ == if hex_length_ok(hex.spec_bytes()) {
                "Invalid hex color"@
            } else {
                "Hex color must be 6 or 8 characters"@
            },
    {
        let bytes = hex.as_bytes();
        let ghost s = hex.spec_bytes();
        let mut start: usize = 0;
        assert(s.subrange(0, s.len() as int) =~= s);
        while start < bytes.len() && bytes[start] == 35
            invariant
                bytes@ == s,
                start <= s.len(),
                strip_hashes(s) == strip_hashes(s.subrange(start as int, s.len() as int)),
            decreases s.len() - start,
        {
            assert(s.subrange(start as int, s.len() as int).subrange(1, s.len() - start)
                =~= s.subrange(start + 1, s.len() as int));
            start = start + 1;
        }
        let n = bytes.len() - start;
        let ghost h = s.subrange(start as int, s.len() as int);
        assert(strip_hashes(h) == h);
        if n != 6 && n != 8 {
            return Err("Hex color must be 6 or 8 characters".to_owned());
        }
        let r = read_field(bytes[start], bytes[start + 1]);
        let g = read_field(bytes[start + 2], bytes[start + 3]);
        let b = read_field(bytes[start + 4], bytes[start + 5]);
        let a = if n == 8 { read_field(bytes[start + 6], bytes[start + 7]) } else { Some(255u8) };
        match (r, g, b, a) {
            (Some(r), Some(g), Some(b), Some(a)) => Ok(Color::new(r, g, b, a)),
            _ => Err("Invalid hex color".to_owned()),
        }
    }

    /// The notation `#rrggbb`, or `#rrggbbaa` when not opaque, in lower case.
    pub fn to_hex(&self) -> (r: String)
        ensures
            r@ == hex_notation(*self),
    {
        let mut s = "#".to_owned();
        proof {
            reveal_strlit("#");
            assert(s@ =~= seq!['#']);
        }
        append_pair(&mut s, self.r);
        append_pair(&mut s, self.g);
        append_pair(&mut s, self.b);
        if self.a != 255 {
            append_pair(&mut s, self.a);
        }
        s
    }
}

} // verus!
