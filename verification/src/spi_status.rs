//! The status word carried in the first byte of every response packet.

use vstd::prelude::*;

verus! {

/// Bit `i` of a status byte, as `0` or `1`.
pub open spec fn spec_status_bit(v: u8, i: u8) -> u8 {
    (v >> i) & 1
}

/// Chip status flags, decoded from the first byte of a response packet.
///
/// Every byte value is a valid status word: decoding is total, with one named
/// single-bit flag per bit position, least-significant bit first.
pub struct SpiStatus {
    bits: u8,
}

impl SpiStatus {
    /// The raw status byte this word was decoded from.
    pub closed spec fn spec_bits(&self) -> u8 {
        self.bits
    }

    /// Decodes a status byte. Total: every byte is a legal status word.
    pub fn from_byte(value: u8) -> (r: SpiStatus)
        ensures
            r.spec_bits() == value,
    {
        SpiStatus { bits: value }
    }

    /// The status word back as its single raw byte.
    pub fn into_bytes(self) -> (r: [u8; 1])
        ensures
            r@ == seq![self.spec_bits()],
    {
        let r: [u8; 1] = [self.bits];
        proof {
            assert(r@ =~= seq![self.spec_bits()]);
        }
        r
    }

    /// Bit 0: the chip was reset since the last read of this flag.
    pub fn reset_flag(&self) -> (r: u8)
        ensures
            r == spec_status_bit(self.spec_bits(), 0),
    {
        (self.bits >> 0) & 1
    }

    /// Bit 1: the driver detected an error condition.
    pub fn driver_error(&self) -> (r: u8)
        ensures
            r == spec_status_bit(self.spec_bits(), 1),
    {
        (self.bits >> 1) & 1
    }

    /// Bit 2: StallGuard threshold reached.
    pub fn sg2(&self) -> (r: u8)
        ensures
            r == spec_status_bit(self.spec_bits(), 2),
    {
        (self.bits >> 2) & 1
    }

    /// Bit 3: the motor is at standstill.
    pub fn standstill(&self) -> (r: u8)
        ensures
            r == spec_status_bit(self.spec_bits(), 3),
    {
        (self.bits >> 3) & 1
    }

    /// Bit 4: the target velocity was reached.
    pub fn velocity_reached(&self) -> (r: u8)
        ensures
            r == spec_status_bit(self.spec_bits(), 4),
    {
        (self.bits >> 4) & 1
    }

    /// Bit 5: the target position was reached.
    pub fn position_reached(&self) -> (r: u8)
        ensures
            r == spec_status_bit(self.spec_bits(), 5),
    {
        (self.bits >> 5) & 1
    }

    /// Bit 6: the left stop switch is active.
    pub fn status_stop_l(&self) -> (r: u8)
        ensures
            r == spec_status_bit(self.spec_bits(), 6),
    {
        (self.bits >> 6) & 1
    }

    /// Bit 7: the right stop switch is active.
    pub fn status_stop_r(&self) -> (r: u8)
        ensures
            r == spec_status_bit(self.spec_bits(), 7),
    {
        (self.bits >> 7) & 1
    }
}

} // verus!
