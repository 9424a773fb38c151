//! WS2812 pulse-train encoding.
//!
//! The LED takes a color as 24 bits — green, red, blue, most significant
//! bit first — each bit transmitted as a pair of line levels with
//! protocol-defined durations, and a zero code word closing the train.
//! Building the code words is pure and proved here; clocking them out is
//! channel work at the board edge.

use vstd::prelude::*;

verus! {

/// A transmit code word: a first line level held for `length1` channel
/// ticks, then a second held for `length2`.  Lengths are fifteen bits
/// wide; each level takes the bit above its length.
pub open spec fn spec_pulse_code(level1: bool, length1: u16, level2: bool, length2: u16) -> int {
    (if level1 { 0x8000int } else { 0 }) + length1 + 0x10000 * (
    (if level2 { 0x8000int } else { 0 }) + length2)
}

/// Packs one code word.
pub fn pulse_code(level1: bool, length1: u16, level2: bool, length2: u16) -> (r: u32)
    requires
        length1 < 0x8000,
        length2 < 0x8000,
    ensures
        r as int == spec_pulse_code(level1, length1, level2, length2),
{
    let half1: u32 = if level1 {
        0x8000 + length1 as u32
    } else {
        length1 as u32
    };
    let half2: u32 = if level2 {
        0x8000 + length2 as u32
    } else {
        length2 as u32
    };
    half1 + 0x10000 * half2
}

/// Channel ticks covering `ns` nanoseconds on a channel clocked at `mhz`
/// megahertz.
pub fn pulse_ticks(ns: u32, mhz: u32) -> (r: u16)
    requires
        ns * mhz <= u32::MAX,
        ns * mhz / 1000 < 0x8000,
    ensures
        r as int == ns * mhz / 1000,
{
    (ns * mhz / 1000) as u16
}

/// The 24-bit wire word of a color: green, then red, then blue.
pub open spec fn spec_color_word(r: u8, g: u8, b: u8) -> u32 {
    ((g as u32) << 16) | ((r as u32) << 8) | (b as u32)
}

/// Whether bit `i` (counted from the least significant end) of `word` is
/// set.
pub open spec fn spec_bit(word: u32, i: u32) -> bool {
    (word >> i) & 1 == 1
}

/// The wire word is the color's channels stacked by value: green times
/// 2^16, red times 2^8, blue.
pub proof fn lemma_color_word_value(r: u8, g: u8, b: u8)
    ensures
        spec_color_word(r, g, b) == g * 0x10000 + r * 0x100 + b,
{
    let rr = r as u32;
    let gg = g as u32;
    let bb = b as u32;
    assert((gg << 16) | (rr << 8) | bb == gg * 0x10000 + rr * 0x100 + bb) by (bit_vector)
        requires rr < 0x100, gg < 0x100, bb < 0x100;
}

/// The code-word train for one color: one word per bit of the color word,
/// most significant first — `one` for a set bit, `zero` for a clear one —
/// then the terminating empty word.
pub fn frame(r: u8, g: u8, b: u8, zero: u32, one: u32) -> (out: Vec<u32>)
    ensures
        out@.len() == 25,
        forall|i: int|
            0 <= i < 24 ==> out@[i] == (if spec_bit(spec_color_word(r, g, b), (23 - i) as u32) {
                one
            } else {
                zero
            }),
        out@[24] == 0,
{
    let color: u32 = ((g as u32) << 16) | ((r as u32) << 8) | (b as u32);
    let mut out: Vec<u32> = Vec::new();
    let mut i: usize = 0;
    while i < 24
        invariant
            i <= 24,
            out@.len() == i,
            color == spec_color_word(r, g, b),
            forall|j: int|
                0 <= j < i ==> out@[j] == (if spec_bit(color, (23 - j) as u32) {
                    one
                } else {
                    zero
                }),
        decreases 24 - i,
    {
        let shift: u32 = 23 - i as u32;
        let bit_set = (color >> shift) & 1 == 1;
        if bit_set {
            out.push(one);
        } else {
            out.push(zero);
        }
        i = i + 1;
    }
    out.push(0);
    out
}

} // verus!
