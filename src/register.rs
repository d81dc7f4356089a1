use vstd::prelude::*;

verus! {

/// Bit of the status register that holds Carry.
pub const CARRY: u8 = 0x01;
/// Bit of the status register that holds Zero.
pub const ZERO: u8 = 0x02;
/// Bit of the status register that holds InterruptDisable.
pub const INTERRUPT_DISABLE: u8 = 0x04;
/// Bit of the status register that holds Decimal.
pub const DECIMAL: u8 = 0x08;
/// Bit of the status register that holds Break.
pub const BREAK: u8 = 0x10;
/// The unused bit of the status register, set in every pushed copy.
pub const UNUSED: u8 = 0x20;
/// Bit of the status register that holds Overflow.
pub const OVERFLOW: u8 = 0x40;
/// Bit of the status register that holds Negative.
pub const NEGATIVE: u8 = 0x80;

/// Whether the bit `mask` is set in the packed status `s`.
pub open spec fn flag(s: u8, mask: u8) -> bool {
    s & mask != 0
}

/// `s` with the bits of `mask` set when `on` holds and cleared otherwise.
pub open spec fn with_flag(s: u8, mask: u8, on: bool) -> u8 {
    if on {
        s | mask
    } else {
        s & !mask
    }
}

/// `s` with Zero and Negative describing the value `v`.
pub open spec fn with_zn(s: u8, v: u8) -> u8 {
    with_flag(with_flag(s, ZERO, v == 0), NEGATIVE, v >= 128)
}

/// `s` with the bits of `mask` set when `on` holds and cleared otherwise.
pub fn apply_flag(s: u8, mask: u8, on: bool) -> (r: u8)
    ensures
        r == with_flag(s, mask, on),
{
    if on {
        s | mask
    } else {
        s & !mask
    }
}

/// The processor's visible registers.
#[derive(Copy, Clone, Debug, PartialEq, Eq, Structural)]
pub struct Register {
    pub program_counter: u16,
    pub stack_pointer: u8,
    pub accumulator: u8,
    pub x: u8,
    pub y: u8,
    pub status: u8,
}

impl Register {
    /// All registers zeroed.
    pub fn new() -> (r: Register)
        ensures
            r == (Register {
                program_counter: 0,
                stack_pointer: 0,
                accumulator: 0,
                x: 0,
                y: 0,
                status: 0,
            }),
    {
        Register { program_counter: 0, stack_pointer: 0, accumulator: 0, x: 0, y: 0, status: 0 }
    }

    /// Whether the status bit `mask` is set.
    pub fn get_flag(&self, mask: u8) -> (r: bool)
        ensures
            r == flag(self.status, mask),
    {
        self.status & mask != 0
    }

    /// Sets or clears the status bit `mask`, leaving everything else as it was.
    pub fn set_flag(&mut self, mask: u8, on: bool)
        ensures
            *final(self) == (Register { status: with_flag(old(self).status, mask, on), ..*old(self) }),
    {
        self.status = apply_flag(self.status, mask, on);
    }

    /// Sets Zero and Negative from `v`.
    pub fn set_zn(&mut self, v: u8)
        ensures
            *final(self) == (Register { status: with_zn(old(self).status, v), ..*old(self) }),
    {
        self.set_flag(ZERO, v == 0);
        self.set_flag(NEGATIVE, v >= 128);
    }
}

} // verus!
