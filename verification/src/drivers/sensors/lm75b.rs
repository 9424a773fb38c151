//! LM75B temperature sensor.
//!
//! The device sits on the shared bus; its temperature register holds a
//! big-endian byte pair whose top eleven bits are the reading in eighths
//! of a degree Celsius.  Reading the register is bus work; decoding the
//! pair is pure and proved here.

use vstd::prelude::*;

use crate::drivers::i2c::arbiter::Operation;

verus! {

/// An LM75B behind a bus handle.
pub struct Lm75B<I2C> {
    i2c: I2C,
    address: u8,
}

impl<I2C> Lm75B<I2C> {
    /// The bus handle the device is reached through.
    pub closed spec fn spec_i2c(self) -> I2C {
        self.i2c
    }

    /// The device's bus address.
    pub closed spec fn spec_address(self) -> u8 {
        self.address
    }

    pub fn new(i2c: I2C, address: u8) -> (r: Self)
        ensures
            r.spec_i2c() == i2c,
            r.spec_address() == address,
    {
        Lm75B { i2c, address }
    }

    /// The device's bus address.
    pub fn address(&self) -> (r: u8)
        ensures
            r == self.spec_address(),
    {
        self.address
    }

    /// The bus transaction that reads the temperature register: point the
    /// register pointer at register zero, then read the two register
    /// bytes.  The caller runs it through the bus arbiter and hands the
    /// two bytes read to `decode_temperature`.
    pub fn read_temperature_request(&self) -> (r: (u8, Vec<Operation>))
        ensures
            r.0 == self.spec_address(),
            r.1@.len() == 2,
            r.1@[0] matches Operation::Write(w) && w@ =~= seq![0u8],
            r.1@[1] == Operation::Read(2),
    {
        let mut pointer: Vec<u8> = Vec::new();
        pointer.push(0x00);
        let mut operations: Vec<Operation> = Vec::new();
        operations.push(Operation::Write(pointer));
        operations.push(Operation::Read(2));
        (self.address, operations)
    }
}

/// A register byte reinterpreted as a two's-complement integer.
pub open spec fn as_signed_byte(b: u8) -> int {
    if b < 128 {
        b as int
    } else {
        b as int - 256
    }
}

/// The reading held in the temperature register pair, in eighths of a
/// degree Celsius: the first byte is the signed whole degrees, the top
/// three bits of the second byte the fraction.
pub open spec fn temperature_eighths(msb: u8, lsb: u8) -> int {
    as_signed_byte(msb) * 8 + (lsb as int) / 32
}

/// Decodes the temperature register pair into eighths of a degree Celsius.
pub fn decode_temperature(msb: u8, lsb: u8) -> (r: i16)
    ensures
        r as int == temperature_eighths(msb, lsb),
{
    let whole: i16 = if msb < 128 {
        msb as i16
    } else {
        (msb as i16) - 256
    };
    let frac: i16 = (lsb >> 5) as i16;
    proof {
        assert(lsb >> 5 == lsb / 32) by (bit_vector);
    }
    whole * 8 + frac
}

} // verus!
