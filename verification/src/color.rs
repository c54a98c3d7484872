//! Colors with 8-bit RGBA channels and their hexadecimal notations.

use vstd::prelude::*;
use vstd::utf8::*;
use vstd::string::*;
use crate::text::push_char;

verus! {

broadcast use vstd::utf8::is_ascii_chars_encode_utf8;

/// The lowercase hexadecimal digit (as a byte) for `n`, which is below 16.
pub open spec fn hex_digit_byte(n: int) -> u8 {
    if n < 10 {
        (48 + n) as u8
    } else {
        (87 + n) as u8
    }
}

/// The two lowercase hexadecimal digits of a byte, high digit first.
pub open spec fn byte_hex(v: u8) -> Seq<char> {
    seq![hex_digit_byte((v / 16) as int) as char, hex_digit_byte((v % 16) as int) as char]
}

/// `#rrggbb` for an opaque color, `#rrggbbaa` otherwise.
pub open spec fn hex_string_of(c: Color) -> Seq<char> {
    seq!['#'] + byte_hex(c.r) + byte_hex(c.g) + byte_hex(c.b) + if c.a == 255 {
        Seq::<char>::empty()
    } else {
        byte_hex(c.a)
    }
}

/// The value of one hexadecimal digit byte (either case), if it is one.
pub open spec fn hex_value(b: u8) -> Option<u8> {
    if 48 <= b <= 57 {
        Some((b - 48) as u8)
    } else if 97 <= b <= 102 {
        Some((b - 87) as u8)
    } else if 65 <= b <= 70 {
        Some((b - 55) as u8)
    } else {
        None
    }
}

/// The value of a group of one or two hexadecimal digit bytes, high digit
/// first; `None` when a byte of it is not a hexadecimal digit.
pub open spec fn radix16_u8(t: Seq<u8>) -> Option<u8> {
    if t.len() == 1 {
        hex_value(t[0])
    } else if t.len() == 2 {
        match (hex_value(t[0]), hex_value(t[1])) {
            (Some(h), Some(l)) => Some((h * 16 + l) as u8),
            _ => None,
        }
    } else {
        None
    }
}

/// Number of `#` bytes at the start of `b`.
pub open spec fn leading_hashes(b: Seq<u8>) -> nat
    decreases b.len(),
{
    if b.len() > 0 && b[0] == 35 {
        1 + leading_hashes(b.skip(1))
    } else {
        0
    }
}

/// The digits that follow the leading `#` signs.
pub open spec fn hex_body(b: Seq<u8>) -> Seq<u8> {
    b.skip(leading_hashes(b) as int)
}

/// The channel written by the `i`-th group of `width` bytes of `t`.
pub open spec fn channel(t: Seq<u8>, i: int, width: int) -> Option<u8> {
    radix16_u8(t.subrange(i * width, i * width + width))
}

/// The color that a hexadecimal text (as UTF-8 bytes) denotes: leading `#`
/// signs are dropped, then 3 digits are `RGB` (each digit doubled), 6 digits are
/// `RRGGBB` and 8 digits are `RRGGBBAA`; anything else denotes no color.
pub open spec fn parse_hex_color(b: Seq<u8>) -> Option<Color> {
    let t = hex_body(b);
    if t.len() == 3 {
        match (channel(t, 0, 1), channel(t, 1, 1), channel(t, 2, 1)) {
            (Some(r), Some(g), Some(bl)) => Some(
                Color { r: (r * 17) as u8, g: (g * 17) as u8, b: (bl * 17) as u8, a: 255 },
            ),
            _ => None,
        }
    } else if t.len() == 6 {
        match (channel(t, 0, 2), channel(t, 1, 2), channel(t, 2, 2)) {
            (Some(r), Some(g), Some(bl)) => Some(Color { r, g, b: bl, a: 255 }),
            _ => None,
        }
    } else if t.len() == 8 {
        match (channel(t, 0, 2), channel(t, 1, 2), channel(t, 2, 2), channel(t, 3, 2)) {
            (Some(r), Some(g), Some(bl), Some(a)) => Some(Color { r, g, b: bl, a }),
            _ => None,
        }
    } else {
        None
    }
}

/// The lowercase hexadecimal digit for `n`.
fn hex_digit(n: u8) -> (c: char)
    requires
        n < 16,
    ensures
        c == hex_digit_byte(n as int) as char,
{
    if n < 10 {
        (48 + n) as char
    } else {
        (87 + n) as char
    }
}

/// Appends the two hexadecimal digits of `v` to `s`.
fn push_byte_hex(s: &mut String, v: u8)
    ensures
        final(s)@ == old(s)@ + byte_hex(v),
{
    push_char(s, hex_digit(v / 16));
    push_char(s, hex_digit(v % 16));
    assert(s@ =~= old(s)@ + byte_hex(v));
}

/// The value of the one or two digit bytes of `b` from `start`.
fn parse_radix16(b: &[u8], start: usize, len: usize) -> (v: Option<u8>)
    requires
        len == 1 || len == 2,
        start + len <= b@.len(),
    ensures
        v == radix16_u8(b@.subrange(start as int, start + len)),
{
    let t = Ghost(b@.subrange(start as int, start + len));
    let first = b[start];
    if len == 1 {
        assert(t@[0] == first);
        hex_digit_value(first)
    } else {
        let second = b[start + 1];
        assert(t@[0] == first && t@[1] == second);
        match (hex_digit_value(first), hex_digit_value(second)) {
            (Some(h), Some(l)) => Some(h * 16 + l),
            _ => None,
        }
    }
}

/// The value of a hexadecimal digit byte.
fn hex_digit_value(b: u8) -> (v: Option<u8>)
    ensures
        v == hex_value(b),
        v matches Some(x) ==> x < 16,
{
    if 48 <= b && b <= 57 {
        Some(b - 48)
    } else if 97 <= b && b <= 102 {
        Some(b - 87)
    } else if 65 <= b && b <= 70 {
        Some(b - 55)
    } else {
        None
    }
}

/// A color with red, green, blue and alpha channels, each 0-255.
#[derive(Debug, Clone, Copy, PartialEq, Eq, Structural)]
pub struct Color {
    pub r: u8,
    pub g: u8,
    pub b: u8,
    pub a: u8,
}

impl Color {
    /// Creates a color from its four channels.
    pub fn new(r: u8, g: u8, b: u8, a: u8) -> (c: Color)
        ensures
            c == (Color { r, g, b, a }),
    {
        Color { r, g, b, a }
    }

    /// Creates an opaque color.
    pub fn rgb(r: u8, g: u8, b: u8) -> (c: Color)
        ensures
            c == (Color { r, g, b, a: 255 }),
    {
        Color { r, g, b, a: 255 }
    }

    /// Creates an opaque color from `0xRRGGBB`; bits above the low 24 are ignored.
    pub fn from_hex(hex: u32) -> (c: Color)
        ensures
            c.r == (hex / 0x10000) % 256,
            c.g == (hex / 0x100) % 256,
            c.b == hex % 256,
            c.a == 255,
    {
        let r = ((hex >> 16) & 0xFF) as u8;
        let g = ((hex >> 8) & 0xFF) as u8;
        let b = (hex & 0xFF) as u8;
        assert(((hex >> 16) & 0xFF) == (hex / 0x10000) % 256) by (bit_vector);
        assert(((hex >> 8) & 0xFF) == (hex / 0x100) % 256) by (bit_vector);
        assert((hex & 0xFF) == hex % 256) by (bit_vector);
        Color { r, g, b, a: 255 }
    }

    /// Creates a color from `0xRRGGBBAA`.
    pub fn from_hex_alpha(hex: u32) -> (c: Color)
        ensures
            c.r == hex / 0x1000000,
            c.g == (hex / 0x10000) % 256,
            c.b == (hex / 0x100) % 256,
            c.a == hex % 256,
    {
        let r = ((hex >> 24) & 0xFF) as u8;
        let g = ((hex >> 16) & 0xFF) as u8;
        let b = ((hex >> 8) & 0xFF) as u8;
        let a = (hex & 0xFF) as u8;
        assert(((hex >> 24) & 0xFF) == hex / 0x1000000) by (bit_vector);
        assert(((hex >> 16) & 0xFF) == (hex / 0x10000) % 256) by (bit_vector);
        assert(((hex >> 8) & 0xFF) == (hex / 0x100) % 256) by (bit_vector);
        assert((hex & 0xFF) == hex % 256) by (bit_vector);
        Color { r, g, b, a }
    }

    /// `#rrggbb` (lowercase) when the color is opaque, `#rrggbbaa` otherwise.
    pub fn to_hex_string(&self) -> (s: String)
        ensures
            s@ == hex_string_of(*self),
    {
        let mut s = String::new();
        push_char(&mut s, '#');
        push_byte_hex(&mut s, self.r);
        push_byte_hex(&mut s, self.g);
        push_byte_hex(&mut s, self.b);
        if self.a != 255 {
            push_byte_hex(&mut s, self.a);
        }
        assert(s@ =~= hex_string_of(*self));
        s
    }

    /// Parses `#RGB`, `#RRGGBB` or `#RRGGBBAA` (any number of leading `#`,
    /// digits of either case); `None` for any other text.
    pub fn from_hex_string(s: &str) -> (res: Option<Color>)
        ensures
            res == parse_hex_color(s.spec_bytes()),
    {
        let b = s.as_bytes();
        let ghost bs = b@;
        let mut k: usize = 0;
        assert(bs.skip(0) =~= bs);
        while k < b.len() && b[k] == 35
            invariant
                k <= b@.len(),
                bs == b@,
                leading_hashes(bs) == k + leading_hashes(bs.skip(k as int)),
            decreases b@.len() - k,
        {
            assert(bs.skip(k as int).skip(1) =~= bs.skip(k + 1));
            k = k + 1;
        }
        assert(leading_hashes(bs.skip(k as int)) == 0);
        let n = b.len() - k;
        let ghost t = hex_body(bs);
        assert(t =~= bs.subrange(k as int, bs.len() as int));
        if n == 3 {
            let r = parse_radix16(b, k, 1);
            let g = parse_radix16(b, k + 1, 1);
            let bl = parse_radix16(b, k + 2, 1);
            assert(t.subrange(0, 1) =~= bs.subrange(k as int, k + 1));
            assert(t.subrange(1, 2) =~= bs.subrange(k + 1, k + 2));
            assert(t.subrange(2, 3) =~= bs.subrange(k + 2, k + 3));
            match (r, g, bl) {
                (Some(r), Some(g), Some(bl)) => Some(Color::rgb(r * 17, g * 17, bl * 17)),
                _ => None,
            }
        } else if n == 6 {
            let r = parse_radix16(b, k, 2);
            let g = parse_radix16(b, k + 2, 2);
            let bl = parse_radix16(b, k + 4, 2);
            assert(t.subrange(0, 2) =~= bs.subrange(k as int, k + 2));
            assert(t.subrange(2, 4) =~= bs.subrange(k + 2, k + 4));
            assert(t.subrange(4, 6) =~= bs.subrange(k + 4, k + 6));
            match (r, g, bl) {
                (Some(r), Some(g), Some(bl)) => Some(Color::rgb(r, g, bl)),
                _ => None,
            }
        } else if n == 8 {
            let r = parse_radix16(b, k, 2);
            let g = parse_radix16(b, k + 2, 2);
            let bl = parse_radix16(b, k + 4, 2);
            let a = parse_radix16(b, k + 6, 2);
            assert(t.subrange(0, 2) =~= bs.subrange(k as int, k + 2));
            assert(t.subrange(2, 4) =~= bs.subrange(k + 2, k + 4));
            assert(t.subrange(4, 6) =~= bs.subrange(k + 4, k + 6));
            assert(t.subrange(6, 8) =~= bs.subrange(k + 6, k + 8));
            match (r, g, bl, a) {
                (Some(r), Some(g), Some(bl), Some(a)) => Some(Color::new(r, g, bl, a)),
                _ => None,
            }
        } else {
            None
        }
    }
}

/// Each digit byte reads back as the value it was written for.
proof fn lemma_hex_digit_value(n: int)
    requires
        0 <= n < 16,
    ensures
        hex_value(hex_digit_byte(n)) == Some(n as u8),
        (hex_digit_byte(n) as char) as u8 == hex_digit_byte(n),
        '\0' <= hex_digit_byte(n) as char <= '\u{7f}',
        hex_digit_byte(n) != 35,
{
}

/// The two digits of a byte read back as that byte.
proof fn lemma_byte_hex_roundtrip(v: u8, t: Seq<u8>)
    requires
        t.len() == 2,
        t[0] == hex_digit_byte((v / 16) as int),
        t[1] == hex_digit_byte((v % 16) as int),
    ensures
        radix16_u8(t) == Some(v),
{
    lemma_hex_digit_value((v / 16) as int);
    lemma_hex_digit_value((v % 16) as int);
}

/// Law: the hexadecimal string of any color parses back to that color.
#[verifier::rlimit(40)]
pub proof fn lemma_hex_string_roundtrip(c: Color)
    ensures
        is_ascii_chars(hex_string_of(c)),
        parse_hex_color(encode_utf8(hex_string_of(c))) == Some(c),
{
    let chars = hex_string_of(c);
    let n: int = if c.a == 255 { 7 } else { 9 };
    let d = |i: int| -> int {
        if i == 1 { (c.r / 16) as int }
        else if i == 2 { (c.r % 16) as int }
        else if i == 3 { (c.g / 16) as int }
        else if i == 4 { (c.g % 16) as int }
        else if i == 5 { (c.b / 16) as int }
        else if i == 6 { (c.b % 16) as int }
        else if i == 7 { (c.a / 16) as int }
        else { (c.a % 16) as int }
    };
    assert(chars.len() == n);
    assert forall|i: int| 1 <= i < n implies chars[i] == hex_digit_byte(d(i)) as char by {
    }
    assert(chars[0] == '#');
    assert forall|i: int| 0 <= i < n implies '\0' <= #[trigger] chars[i] <= '\u{7f}' by {
        if i > 0 {
            lemma_hex_digit_value(d(i));
        }
    }
    assert(is_ascii_chars(chars));
    let bytes = encode_utf8(chars);
    assert(bytes.len() == n);
    assert forall|i: int| 1 <= i < n implies bytes[i] == hex_digit_byte(d(i)) by {
        lemma_hex_digit_value(d(i));
        assert(chars[i] as u8 == bytes[i]);
    }
    assert(bytes[0] == 35) by {
        assert(chars[0] as u8 == bytes[0]);
    }
    lemma_hex_digit_value(d(1));
    assert(bytes.skip(1)[0] == bytes[1]);
    assert(leading_hashes(bytes.skip(1)) == 0);
    assert(leading_hashes(bytes) == 1);
    let t = hex_body(bytes);
    assert(t.len() == n - 1);
    assert forall|i: int| 0 <= i < n - 1 implies t[i] == bytes[i + 1] by {}
    lemma_byte_hex_roundtrip(c.r, t.subrange(0, 2));
    lemma_byte_hex_roundtrip(c.g, t.subrange(2, 4));
    lemma_byte_hex_roundtrip(c.b, t.subrange(4, 6));
    assert(channel(t, 0, 2) == Some(c.r));
    assert(channel(t, 1, 2) == Some(c.g));
    assert(channel(t, 2, 2) == Some(c.b));
    if c.a != 255 {
        lemma_byte_hex_roundtrip(c.a, t.subrange(6, 8));
        assert(channel(t, 3, 2) == Some(c.a));
    }
}

impl Default for Color {
    /// Mid grey, opaque.
    fn default() -> (c: Color)
        ensures
            c == (Color { r: 128, g: 128, b: 128, a: 255 }),
    {
        Color::rgb(128, 128, 128)
    }
}

} // verus!
