//! DHT22 environment sensor frames.
//!
//! The single-wire protocol is bit-banged at the board edge and yields a
//! five-byte frame: humidity high and low, temperature high and low, and a
//! checksum.  Assembling bits into bytes, checking the frame, and decoding
//! the readings are pure and proved here.

use vstd::prelude::*;

verus! {

/// A decoded frame: relative humidity and temperature, both in tenths of
/// their unit (percent, degree Celsius).
#[derive(Clone, Copy, Debug, PartialEq, Eq, Structural)]
pub struct Dht22Reading {
    pub humidity_tenths: u16,
    pub temperature_tenths: i16,
}

/// The byte assembled from eight wire samples, most significant bit first.
pub open spec fn spec_byte_from_bits(bits: Seq<bool>) -> int
    recommends
        bits.len() == 8,
{
    (if bits[0] { 128int } else { 0 }) + (if bits[1] { 64int } else { 0 }) + (if bits[2] {
        32int
    } else {
        0
    }) + (if bits[3] { 16int } else { 0 }) + (if bits[4] { 8int } else { 0 }) + (if bits[5] {
        4int
    } else {
        0
    }) + (if bits[6] { 2int } else { 0 }) + (if bits[7] { 1int } else { 0 })
}

/// Assembles one protocol byte from eight sampled line levels, most
/// significant bit first.
pub fn byte_from_bits(bits: &[bool; 8]) -> (r: u8)
    ensures
        r as int == spec_byte_from_bits(bits@),
{
    let mut value: u8 = 0;
    if bits[0] {
        value = value + 128;
    }
    if bits[1] {
        value = value + 64;
    }
    if bits[2] {
        value = value + 32;
    }
    if bits[3] {
        value = value + 16;
    }
    if bits[4] {
        value = value + 8;
    }
    if bits[5] {
        value = value + 4;
    }
    if bits[6] {
        value = value + 2;
    }
    if bits[7] {
        value = value + 1;
    }
    value
}

/// The checksum a frame's payload calls for: the low byte of the sum of
/// the four payload bytes.
pub open spec fn spec_checksum(hh: u8, hl: u8, th: u8, tl: u8) -> int {
    (hh + hl + th + tl) % 256
}

/// Whether the frame's checksum byte matches its payload.
pub fn checksum_ok(hh: u8, hl: u8, th: u8, tl: u8, checksum: u8) -> (r: bool)
    ensures
        r == (spec_checksum(hh, hl, th, tl) == checksum as int),
{
    let sum: u16 = hh as u16 + hl as u16 + th as u16 + tl as u16;
    (sum % 256) as u8 == checksum
}

/// The humidity carried by its byte pair, in tenths of a percent.
pub open spec fn spec_humidity_tenths(hh: u8, hl: u8) -> int {
    hh * 256 + hl
}

/// The temperature carried by its byte pair, in tenths of a degree
/// Celsius: the top bit of the high byte is the sign, the rest the
/// magnitude.
pub open spec fn spec_temperature_tenths(th: u8, tl: u8) -> int {
    let magnitude = (th % 128) * 256 + tl;
    if th >= 128 {
        -magnitude
    } else {
        magnitude
    }
}

/// Decodes a frame's payload.  The checksum is judged separately by
/// `checksum_ok`; a frame that fails it carries no trustworthy reading.
pub fn decode(hh: u8, hl: u8, th: u8, tl: u8) -> (r: Dht22Reading)
    ensures
        r.humidity_tenths as int == spec_humidity_tenths(hh, hl),
        r.temperature_tenths as int == spec_temperature_tenths(th, tl),
{
    let humidity: u16 = ((hh as u16) << 8) | (hl as u16);
    proof {
        assert(((hh as u16) << 8) | (hl as u16) == hh as u16 * 256 + hl as u16) by (bit_vector);
    }

    let th_clean: u8 = th & 0x7F;
    proof {
        assert(th & 0x7F == th % 128) by (bit_vector);
        assert((th & 0x80 != 0) == (th >= 128)) by (bit_vector);
        let tc = th & 0x7F;
        assert(((tc as u16) << 8) | (tl as u16) == tc as u16 * 256 + tl as u16) by (bit_vector);
    }
    let magnitude: u16 = ((th_clean as u16) << 8) | (tl as u16);
    let temperature: i16 = if th & 0x80 != 0 {
        -(magnitude as i16)
    } else {
        magnitude as i16
    };

    Dht22Reading { humidity_tenths: humidity, temperature_tenths: temperature }
}

} // verus!
