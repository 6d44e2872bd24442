//! Hex color parsing for team colors and chat shadows.
//!
//! The parsers work on the UTF-8 bytes of the text, as the slicing and
//! `u8::from_str_radix` calls they stand for do.

use crate::text::{
    hex_digit, hex_digits_value,
    char_boundary, count_leading_hashes, is_char_boundary, leading_hashes, parse_radix16_u8,
    radix16_u8, trim, trimmed,
};
use vstd::prelude::*;
use vstd::string::{StrSliceExecFns, StringExecFns, StringSliceAdditionalSpecFns};
use vstd::utf8::encode_utf8;

verus! {

/// Default color used for neutral NPC-owned piece rendering.
pub const NPC_PIECE_COLOR: &'static str = "#555555";

/// The channel value of the fallback gray used when a team color does not parse.
pub const FALLBACK_GRAY: u8 = 85;

/// `bytes` without its leading `#` bytes.
pub open spec fn without_hashes(bytes: Seq<u8>) -> Seq<u8> {
    bytes.skip(leading_hashes(bytes))
}

/// `radix16_u8` of `h[from..to]`.
pub open spec fn channel(h: Seq<u8>, from: int, to: int) -> Option<u8> {
    radix16_u8(h.subrange(from, to))
}

/// A short-form digit: its value times 17, so `f` stands for `ff`.
pub open spec fn short_channel(h: Seq<u8>, i: int) -> Option<u8> {
    match channel(h, i, i + 1) {
        Some(v) => Some((v * 17) as u8),
        None => None,
    }
}

/// The color that `h` (without its `#`) spells as `rrggbb` or `rgb`.
pub open spec fn hex_color(h: Seq<u8>) -> Option<(u8, u8, u8)> {
    if h.len() == 6 {
        match (channel(h, 0, 2), channel(h, 2, 4), channel(h, 4, 6)) {
            (Some(r), Some(g), Some(b)) => Some((r, g, b)),
            _ => None,
        }
    } else if h.len() == 3 {
        match (short_channel(h, 0), short_channel(h, 1), short_channel(h, 2)) {
            (Some(r), Some(g), Some(b)) => Some((r, g, b)),
            _ => None,
        }
    } else {
        None
    }
}

/// The slices that parsing `h` takes all start and end between characters.
pub open spec fn hex_color_slices_ok(h: Seq<u8>) -> bool {
    &&& h.len() == 6 ==> char_boundary(h, 2) && (channel(h, 0, 2) is Some ==> char_boundary(h, 4))
    &&& h.len() == 3 ==> char_boundary(h, 1) && (channel(h, 0, 1) is Some ==> char_boundary(h, 2))
}

proof fn lemma_short_digit_fits(h: Seq<u8>, i: int)
    requires
        0 <= i < h.len(),
    ensures
        channel(h, i, i + 1) matches Some(v) ==> v * 17 <= 255,
{
    let t = h.subrange(i, i + 1);
    if t[0] == 0x2b {
        assert(t.drop_first().len() == 0);
    } else {
        assert(t.drop_last() =~= Seq::<u8>::empty());
        assert(crate::text::hex_digits_value(t.drop_last()) == Some(0int));
    }
}

fn short_digit(h: &[u8], i: usize) -> (r: Option<u8>)
    requires
        i < h@.len(),
    ensures
        r == short_channel(h@, i as int),
{
    proof {
        lemma_short_digit_fits(h@, i as int);
    }
    let _n = h.len();
    match parse_radix16_u8(h, i, i + 1) {
        Some(v) => Some(v * 17),
        None => None,
    }
}

/// Parses a `#rrggbb` or `#rgb` color (any number of leading `#`) into its
/// channels; `None` when it is neither.
pub fn parse_hex_color(hex: &str) -> (r: Option<(u8, u8, u8)>)
    requires
        hex_color_slices_ok(without_hashes(hex.spec_bytes())),
    ensures
        r == hex_color(without_hashes(hex.spec_bytes())),
{
    let bytes = hex.as_bytes();
    let skip = count_leading_hashes(bytes);
    let h = slice_from(bytes, skip);
    let ghost hv = h@;
    if h.len() == 6 {
        let r = match parse_radix16_u8(&h, 0, 2) {
            Some(v) => v,
            None => return None,
        };
        let g = match parse_radix16_u8(&h, 2, 4) {
            Some(v) => v,
            None => return None,
        };
        let b = match parse_radix16_u8(&h, 4, 6) {
            Some(v) => v,
            None => return None,
        };
        Some((r, g, b))
    } else if h.len() == 3 {
        let r = match short_digit(&h, 0) {
            Some(v) => v,
            None => return None,
        };
        let g = match short_digit(&h, 1) {
            Some(v) => v,
            None => return None,
        };
        let b = match short_digit(&h, 2) {
            Some(v) => v,
            None => return None,
        };
        Some((r, g, b))
    } else {
        None
    }
}

/// Whether [`parse_hex_color`] can take its slices of `hex`: they all start
/// and end between characters.
pub fn hex_color_slices_valid(hex: &str) -> (b: bool)
    ensures
        b == hex_color_slices_ok(without_hashes(hex.spec_bytes())),
{
    let bytes = hex.as_bytes();
    let skip = count_leading_hashes(bytes);
    let h = slice_from(bytes, skip);
    if h.len() == 6 {
        is_char_boundary(&h, 2) && (parse_radix16_u8(&h, 0, 2).is_none() || is_char_boundary(&h, 4))
    } else if h.len() == 3 {
        is_char_boundary(&h, 1) && (parse_radix16_u8(&h, 0, 1).is_none() || is_char_boundary(&h, 2))
    } else {
        true
    }
}

/// `bytes[from..]`.
fn slice_from(bytes: &[u8], from: usize) -> (r: Vec<u8>)
    requires
        from <= bytes@.len(),
    ensures
        r@ == bytes@.skip(from as int),
{
    let mut out: Vec<u8> = Vec::new();
    let mut i: usize = from;
    while i < bytes.len()
        invariant
            from <= i <= bytes@.len(),
            out@ == bytes@.subrange(from as int, i as int),
        decreases bytes.len() - i,
    {
        out.push(bytes[i]);
        proof {
            assert(bytes@.subrange(from as int, i + 1) =~= bytes@.subrange(from as int, i as int).push(bytes@[i as int]));
        }
        i = i + 1;
    }
    out
}

/// Channel value, or `0` when it does not parse.
pub open spec fn or_zero(c: Option<u8>) -> u8 {
    match c {
        Some(v) => v,
        None => 0,
    }
}

/// The channels that `rgba()` output uses for `h` (without its `#`): each
/// channel that does not parse counts as `0`, and any other length is black.
pub open spec fn rgba_channels_spec(h: Seq<u8>) -> (u8, u8, u8) {
    if h.len() == 6 {
        (or_zero(channel(h, 0, 2)), or_zero(channel(h, 2, 4)), or_zero(channel(h, 4, 6)))
    } else if h.len() == 3 {
        (or_zero(short_channel(h, 0)), or_zero(short_channel(h, 1)), or_zero(short_channel(h, 2)))
    } else {
        (0, 0, 0)
    }
}

/// All the slices that the `rgba()` conversion takes of `h` start and end
/// between characters.
pub open spec fn rgba_slices_ok(h: Seq<u8>) -> bool {
    &&& h.len() == 6 ==> char_boundary(h, 2) && char_boundary(h, 4)
    &&& h.len() == 3 ==> char_boundary(h, 1) && char_boundary(h, 2)
}

/// Whether [`rgba_channels`] can take its slices of `hex`.
pub fn rgba_slices_valid(hex: &str) -> (b: bool)
    ensures
        b == rgba_slices_ok(without_hashes(hex.spec_bytes())),
{
    let bytes = hex.as_bytes();
    let skip = count_leading_hashes(bytes);
    let h = slice_from(bytes, skip);
    if h.len() == 6 {
        is_char_boundary(&h, 2) && is_char_boundary(&h, 4)
    } else if h.len() == 3 {
        is_char_boundary(&h, 1) && is_char_boundary(&h, 2)
    } else {
        true
    }
}

/// The red, green and blue channels of a `#rrggbb` or `#rgb` color for an
/// `rgba()` CSS string.
pub fn rgba_channels(hex: &str) -> (r: (u8, u8, u8))
    requires
        rgba_slices_ok(without_hashes(hex.spec_bytes())),
    ensures
        r == rgba_channels_spec(without_hashes(hex.spec_bytes())),
{
    let bytes = hex.as_bytes();
    let skip = count_leading_hashes(bytes);
    let h = slice_from(bytes, skip);
    if h.len() == 6 {
        let r = match parse_radix16_u8(&h, 0, 2) { Some(v) => v, None => 0 };
        let g = match parse_radix16_u8(&h, 2, 4) { Some(v) => v, None => 0 };
        let b = match parse_radix16_u8(&h, 4, 6) { Some(v) => v, None => 0 };
        (r, g, b)
    } else if h.len() == 3 {
        let r = match short_digit(&h, 0) { Some(v) => v, None => 0 };
        let g = match short_digit(&h, 1) { Some(v) => v, None => 0 };
        let b = match short_digit(&h, 2) { Some(v) => v, None => 0 };
        (r, g, b)
    } else {
        (0, 0, 0)
    }
}

/// The base color of a chat drop shadow: the text trimmed, when it is `#`
/// followed by six hexadecimal digits.
pub open spec fn shadow_base_spec(t: Seq<u8>) -> Option<(u8, u8, u8)> {
    if t.len() == 7 && t[0] == 0x23 {
        match (channel(t, 1, 3), channel(t, 3, 5), channel(t, 5, 7)) {
            (Some(r), Some(g), Some(b)) => Some((r, g, b)),
            _ => None,
        }
    } else {
        None
    }
}

/// The slices that the shadow parse takes of `t` start and end between characters.
pub open spec fn shadow_slices_ok(t: Seq<u8>) -> bool {
    t.len() == 7 && t[0] == 0x23 ==> char_boundary(t, 3) && char_boundary(t, 5)
}

/// Whether [`shadow_base_channels`] can take its slices of `hex`.
pub fn shadow_slices_valid(hex: &str) -> (b: bool)
    ensures
        b == shadow_slices_ok(encode_utf8(trimmed(hex@))),
{
    let t = trim(hex);
    let bytes = t.as_str().as_bytes();
    if bytes.len() == 7 && bytes[0] == 0x23 {
        is_char_boundary(bytes, 3) && is_char_boundary(bytes, 5)
    } else {
        true
    }
}

/// The channels of a trimmed `#rrggbb` color, from which the darker chat
/// shadow is derived; `None` when the text is not of that form.
pub fn shadow_base_channels(hex: &str) -> (r: Option<(u8, u8, u8)>)
    requires
        shadow_slices_ok(encode_utf8(trimmed(hex@))),
    ensures
        r == shadow_base_spec(encode_utf8(trimmed(hex@))),
{
    let t = trim(hex);
    let bytes = t.as_str().as_bytes();
    if bytes.len() == 7 && bytes[0] == 0x23 {
        let r = parse_radix16_u8(bytes, 1, 3);
        let g = parse_radix16_u8(bytes, 3, 5);
        let b = parse_radix16_u8(bytes, 5, 7);
        match (r, g, b) {
            (Some(r), Some(g), Some(b)) => Some((r, g, b)),
            _ => None,
        }
    } else {
        None
    }
}

/// The lower-case hexadecimal digit of `v` (`0 <= v < 16`).
pub open spec fn hex_char(v: int) -> char {
    if v < 10 { (0x30 + v) as char } else { (0x61 + v - 10) as char }
}

/// `#rrggbb` with two lower-case hexadecimal digits per channel.
pub open spec fn hex_color_chars(r: u8, g: u8, b: u8) -> Seq<char> {
    seq![
        '#',
        hex_char(r as int / 16),
        hex_char(r as int % 16),
        hex_char(g as int / 16),
        hex_char(g as int % 16),
        hex_char(b as int / 16),
        hex_char(b as int % 16),
    ]
}

/// Lower-case hexadecimal digits, in order of value.
const HEX_DIGITS: &'static str = "0123456789abcdef";

fn hex_digit_text(v: u8) -> (t: &'static str)
    requires
        v < 16,
    ensures
        t@ == seq![hex_char(v as int)],
{
    proof {
        reveal_strlit("0123456789abcdef");
        assert(HEX_DIGITS.is_ascii());
    }
    let t = HEX_DIGITS.substring_ascii(v as usize, v as usize + 1);
    proof {
        assert(t@ =~= seq![HEX_DIGITS@[v as int]]);
    }
    t
}

/// Formats a color as `#rrggbb` with lower-case digits, as
/// `format!("#{r:02x}{g:02x}{b:02x}")` writes it.
pub fn format_hex_color(r: u8, g: u8, b: u8) -> (s: String)
    ensures
        s@ == hex_color_chars(r, g, b),
{
    proof {
        reveal_strlit("#");
    }
    let s = String::from_str("#")
        .concat(hex_digit_text(r / 16)).concat(hex_digit_text(r % 16))
        .concat(hex_digit_text(g / 16)).concat(hex_digit_text(g % 16))
        .concat(hex_digit_text(b / 16)).concat(hex_digit_text(b % 16));
    assert(s@ =~= hex_color_chars(r, g, b));
    s
}

proof fn lemma_hex_char(v: int)
    requires
        0 <= v < 16,
    ensures
        '\0' <= hex_char(v) <= '\u{7f}',
        hex_digit(hex_char(v) as u8) == Some(v as u8),
        hex_char(v) as u8 != 0x23,
        hex_char(v) as u8 != 0x2b,
        (hex_char(v) as u8) < 0x80,
{
}

proof fn lemma_two_digits(h: Seq<u8>, i: int, v: u8)
    requires
        0 <= i,
        i + 2 <= h.len(),
        h[i] == hex_char(v as int / 16) as u8,
        h[i + 1] == hex_char(v as int % 16) as u8,
    ensures
        channel(h, i, i + 2) == Some(v),
{
    lemma_hex_char(v as int / 16);
    lemma_hex_char(v as int % 16);
    let d = h.subrange(i, i + 2);
    let e = d.drop_last();
    assert(e.drop_last() =~= Seq::<u8>::empty());
    assert(hex_digits_value(e.drop_last()) == Some(0int));
    assert(e.last() == h[i]);
    assert(d.last() == h[i + 1]);
    assert(hex_digits_value(e) == Some(v as int / 16));
    assert(hex_digits_value(d) == Some(v as int / 16 * 16 + v as int % 16));
}

proof fn lemma_one_digit(h: Seq<u8>, i: int, v: int)
    requires
        0 <= i < h.len(),
        0 <= v < 16,
        h[i] == hex_char(v) as u8,
    ensures
        short_channel(h, i) == Some((v * 17) as u8),
{
    lemma_hex_char(v);
    let d = h.subrange(i, i + 1);
    assert(d.drop_last() =~= Seq::<u8>::empty());
    assert(hex_digits_value(d.drop_last()) == Some(0int));
    assert(d.last() == h[i]);
    assert(hex_digits_value(d) == Some(v));
}

/// The bytes of an ASCII text: each character as its code.
proof fn lemma_ascii_bytes(c: Seq<char>)
    requires
        forall|i: int| 0 <= i < c.len() ==> '\0' <= #[trigger] c[i] <= '\u{7f}',
    ensures
        encode_utf8(c).len() == c.len(),
        forall|i: int| 0 <= i < c.len() ==> #[trigger] encode_utf8(c)[i] == c[i] as u8,
{
    vstd::utf8::is_ascii_chars_encode_utf8(c);
}

/// A color written by [`format_hex_color`] parses back to the same channels:
/// `parse_hex_color(&format_hex_color(r, g, b))` is `Some((r, g, b))`.
pub proof fn law_formatted_color_parses_back(r: u8, g: u8, b: u8)
    ensures
        hex_color_slices_ok(without_hashes(encode_utf8(hex_color_chars(r, g, b)))),
        hex_color(without_hashes(encode_utf8(hex_color_chars(r, g, b)))) == Some((r, g, b)),
{
    let c = hex_color_chars(r, g, b);
    assert forall|i: int| 0 <= i < c.len() implies '\0' <= #[trigger] c[i] <= '\u{7f}' by {
        if i > 0 {
            lemma_hex_char(r as int / 16);
            lemma_hex_char(r as int % 16);
            lemma_hex_char(g as int / 16);
            lemma_hex_char(g as int % 16);
            lemma_hex_char(b as int / 16);
            lemma_hex_char(b as int % 16);
        }
    }
    lemma_ascii_bytes(c);
    let bytes = encode_utf8(c);
    lemma_hex_char(r as int / 16);
    assert(bytes[0] == 0x23u8);
    assert(bytes[1] != 0x23u8);
    assert(leading_hashes(bytes.drop_first()) == 0);
    assert(leading_hashes(bytes) == 1);
    let h = bytes.skip(1);
    assert(h.len() == 6);
    lemma_two_digits(h, 0, r);
    lemma_two_digits(h, 2, g);
    lemma_two_digits(h, 4, b);
    lemma_hex_char(g as int / 16);
    lemma_hex_char(b as int / 16);
    assert(char_boundary(h, 2));
    assert(char_boundary(h, 4));
}

/// A short color `#xyz` (lower-case digits `x`, `y`, `z`) parses to each
/// digit times 17, so `#f80` reads as `#ff8800`.
pub proof fn law_short_color_parses(x: int, y: int, z: int)
    requires
        0 <= x < 16,
        0 <= y < 16,
        0 <= z < 16,
    ensures
        hex_color_slices_ok(without_hashes(encode_utf8(seq!['#', hex_char(x), hex_char(y), hex_char(z)]))),
        hex_color(without_hashes(encode_utf8(seq!['#', hex_char(x), hex_char(y), hex_char(z)])))
            == Some(((x * 17) as u8, (y * 17) as u8, (z * 17) as u8)),
{
    let c = seq!['#', hex_char(x), hex_char(y), hex_char(z)];
    lemma_hex_char(x);
    lemma_hex_char(y);
    lemma_hex_char(z);
    assert forall|i: int| 0 <= i < c.len() implies '\0' <= #[trigger] c[i] <= '\u{7f}' by {}
    lemma_ascii_bytes(c);
    let bytes = encode_utf8(c);
    assert(leading_hashes(bytes.drop_first()) == 0);
    assert(leading_hashes(bytes) == 1);
    let h = bytes.skip(1);
    lemma_one_digit(h, 0, x);
    lemma_one_digit(h, 1, y);
    lemma_one_digit(h, 2, z);
    assert(char_boundary(h, 1));
    assert(char_boundary(h, 2));
}

proof fn lemma_hex_digits_ascii(d: Seq<u8>)
    requires
        hex_digits_value(d) is Some,
    ensures
        forall|i: int| 0 <= i < d.len() ==> (#[trigger] d[i]) < 0x80,
    decreases d.len(),
{
    if d.len() > 0 {
        lemma_hex_digits_ascii(d.drop_last());
        assert forall|i: int| 0 <= i < d.len() implies (#[trigger] d[i]) < 0x80 by {
            if i < d.len() - 1 {
                assert(d[i] == d.drop_last()[i]);
            }
        }
    }
}

/// A parsed channel is made of ASCII bytes only.
proof fn lemma_channel_ascii(h: Seq<u8>, from: int, to: int)
    requires
        0 <= from <= to <= h.len(),
        channel(h, from, to) is Some,
    ensures
        forall|i: int| from <= i < to ==> (#[trigger] h[i]) < 0x80,
{
    let s = h.subrange(from, to);
    let digits = if s.len() > 0 && s[0] == 0x2b { s.drop_first() } else { s };
    lemma_hex_digits_ascii(digits);
    assert forall|i: int| from <= i < to implies (#[trigger] h[i]) < 0x80 by {
        assert(h[i] == s[i - from]);
        if s.len() > 0 && s[0] == 0x2b && i > from {
            assert(s[i - from] == digits[i - from - 1]);
        }
    }
}

/// Whenever a color parses, the `rgba()` conversion of the same text takes
/// its slices without splitting a character and reads the same channels.
pub proof fn law_rgba_agrees_with_parse(h: Seq<u8>)
    requires
        hex_color(h) is Some,
    ensures
        rgba_slices_ok(h),
        rgba_channels_spec(h) == hex_color(h).unwrap(),
{
    if h.len() == 6 {
        lemma_channel_ascii(h, 2, 4);
        lemma_channel_ascii(h, 4, 6);
    } else {
        lemma_channel_ascii(h, 1, 2);
        lemma_channel_ascii(h, 2, 3);
    }
}

/// Colors written in ASCII never make the parsers split a character.
pub proof fn law_ascii_color_slices_ok(h: Seq<u8>)
    requires
        forall|i: int| 0 <= i < h.len() ==> (#[trigger] h[i]) < 0x80,
    ensures
        hex_color_slices_ok(h),
        rgba_slices_ok(h),
{
}

} // verus!
