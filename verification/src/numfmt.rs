//! Rendering of unsigned integers as uppercase hexadecimal (with a
//! minimum width, zero-padded) and as decimal text.

use vstd::prelude::*;

verus! {

/// The uppercase hexadecimal digit character for `d` in `[0, 16)`.
pub open spec fn hex_digit(d: int) -> char {
    if d < 10 {
        ((48 + d) as u8) as char
    } else {
        ((55 + d) as u8) as char
    }
}

/// The decimal digit character for `d` in `[0, 10)`.
pub open spec fn dec_digit(d: int) -> char {
    ((48 + d) as u8) as char
}

/// `c` is one of the sixteen uppercase hexadecimal digit characters.
pub open spec fn is_upper_hex_char(c: char) -> bool {
    (48 <= (c as int) && (c as int) < 58) || (65 <= (c as int) && (c as int) < 71)
}

/// Uppercase hexadecimal rendering of `v`, zero-padded on the left to at
/// least `w` digits; values too large for `w` digits take as many digits
/// as they need.
pub open spec fn hex_seq(v: int, w: int) -> Seq<char>
    decreases v + (if w >= 1 { w } else { 0 }) when v >= 0
{
    if v < 16 && w <= 1 {
        seq![hex_digit(v % 16)]
    } else {
        hex_seq(v / 16, w - 1).push(hex_digit(v % 16))
    }
}

/// Decimal rendering of `v`, with no padding (a single `'0'` for zero).
pub open spec fn dec_seq(v: int) -> Seq<char>
    decreases v when v >= 0
{
    if v < 10 {
        seq![dec_digit(v % 10)]
    } else {
        dec_seq(v / 10).push(dec_digit(v % 10))
    }
}

/// Once the remaining value fits in one digit's worth of recursion, any
/// two non-positive-padding widths render the same text.
proof fn lemma_hex_seq_width(v: int, w1: int, w2: int)
    requires
        v >= 0,
        w1 <= 1,
        w2 <= 1,
    ensures
        hex_seq(v, w1) == hex_seq(v, w2),
    decreases v
{
    if v < 16 {
    } else {
        lemma_hex_seq_width(v / 16, w1 - 1, w2 - 1);
    }
}

/// 16 to the power `w` (1 for non-positive `w`).
pub open spec fn pow16(w: int) -> int
    decreases w
{
    if w <= 0 {
        1
    } else {
        16 * pow16(w - 1)
    }
}

/// Every hexadecimal digit character is an uppercase hex character.
proof fn lemma_hex_digit_char_shape(d: int)
    requires
        0 <= d < 16,
    ensures
        is_upper_hex_char(hex_digit(d)),
{
}

/// The rendering always has at least one digit, at least `w` digits, and
/// only uppercase hexadecimal digit characters.
proof fn lemma_hex_seq_general(v: int, w: int)
    requires
        0 <= v,
    ensures
        hex_seq(v, w).len() >= 1,
        hex_seq(v, w).len() >= w,
        w >= 1 && v < pow16(w) ==> hex_seq(v, w).len() == w,
        forall|i: int|
            0 <= i < hex_seq(v, w).len() ==> is_upper_hex_char(#[trigger] hex_seq(v, w)[i]),
    decreases v + (if w >= 0 { w } else { 0 })
{
    if v < 16 && w <= 1 {
        lemma_hex_digit_char_shape(v % 16);
    } else {
        lemma_hex_seq_general(v / 16, w - 1);
        lemma_hex_digit_char_shape(v % 16);
        if w >= 1 && v < pow16(w) {
            assert(pow16(w) == 16 * pow16(w - 1));
            assert(v / 16 < pow16(w - 1)) by (nonlinear_arith)
                requires
                    0 <= v,
                    v < 16 * pow16(w - 1),
            ;
        }
    }
}

/// Law: for every value in `[0, 16^w)` with `w >= 1`, the rendering is
/// exactly `w` uppercase hexadecimal digit characters, zero-padded. In
/// particular a 16-bit value takes exactly 4 digits and an 8-bit value
/// exactly 2.
pub proof fn lemma_hex_shape(v: int, w: int)
    requires
        0 <= v,
        1 <= w,
        v < pow16(w),
    ensures
        hex_seq(v, w).len() == w,
        forall|i: int|
            0 <= i < w ==> is_upper_hex_char(#[trigger] hex_seq(v, w)[i]),
{
    lemma_hex_seq_general(v, w);
}

/// Relies on `String::push` of std: appends one character to the string.
pub assume_specification[ String::push ](s: &mut String, c: char)
    ensures
        final(s)@ == old(s)@.push(c),
;

/// The single uppercase hexadecimal digit character for `d < 16`.
fn hex_digit_char(d: u8) -> (r: char)
    requires
        d < 16,
    ensures
        r == hex_digit(d as int),
{
    if d < 10 {
        (48 + d) as char
    } else {
        (55 + d) as char
    }
}

/// Uppercase hexadecimal rendering of `v`, zero-padded to at least `w`
/// digits.
pub fn hex_upper(v: u32, w: u32) -> (r: String)
    ensures
        r@ == hex_seq(v as int, w as int),
    decreases v + w
{
    if v < 16 && w <= 1 {
        let mut s = String::new();
        s.push(hex_digit_char((v % 16) as u8));
        s
    } else {
        let next_w: u32 = if w == 0 { 0 } else { w - 1 };
        let mut s = hex_upper(v / 16, next_w);
        proof {
            if w == 0 {
                lemma_hex_seq_width(v as int / 16, 0, -1);
            }
        }
        s.push(hex_digit_char((v % 16) as u8));
        s
    }
}

/// Decimal rendering of `v`.
pub fn dec_string(v: u32) -> (r: String)
    ensures
        r@ == dec_seq(v as int),
    decreases v
{
    if v < 10 {
        let mut s = String::new();
        s.push(((48 + (v % 10)) as u8) as char);
        proof {
            assert(s@ == dec_seq(v as int));
        }
        s
    } else {
        let mut s = dec_string(v / 10);
        s.push(((48 + (v % 10)) as u8) as char);
        s
    }
}

} // verus!
