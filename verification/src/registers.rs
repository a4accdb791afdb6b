//! Typed, bit-accurate registers and the shared encode/decode contract.
//!
//! Every register is a 32-bit word with a type-specific layout of defined bit
//! fields; the remaining bits are reserved. Reserved bits are always zero in
//! encoded output and are discarded on decode. Field accessors are explicit
//! mask/shift operations with the bit offset and width stated in the contract.

use vstd::prelude::*;

verus! {

/// The four payload bytes of a 32-bit register value, least-significant byte
/// first. This is the register's natural in-memory order; the codec reverses
/// it for the wire.
pub open spec fn spec_value_bytes(v: u32) -> Seq<u8> {
    seq![
        (v & 0xff) as u8,
        ((v >> 8) & 0xff) as u8,
        ((v >> 16) & 0xff) as u8,
        ((v >> 24) & 0xff) as u8,
    ]
}

/// The 32-bit register value held by four payload bytes, least-significant
/// byte first.
pub open spec fn spec_bytes_value(s: Seq<u8>) -> u32
    recommends
        s.len() == 4,
{
    (s[0] as u32) | ((s[1] as u32) << 8) | ((s[2] as u32) << 16) | ((s[3] as u32) << 24)
}

/// Bit `i` of a register word, as `0` or `1`.
pub open spec fn spec_reg_bit(v: u32, i: u32) -> u8 {
    ((v >> i) & 1) as u8
}

/// A chip register: a constant 7-bit address and a 32-bit word whose defined
/// bits are given by a constant mask.
///
/// `get_bytes` and `from_bytes` share one contract for every register type:
/// the byte image is the defined-bit content in least-significant-byte-first
/// order, reserved bits encode as zero and decode as don't-care.
pub trait Register: Sized {
    /// The register's address on the chip, below `0x80`.
    spec fn spec_address() -> u8;

    /// The mask of defined (non-reserved) bits.
    spec fn spec_mask() -> u32;

    /// The raw 32-bit word the register currently holds.
    spec fn spec_bits(&self) -> u32;

    /// The register's address, available without an instance.
    fn address() -> (r: u8)
        ensures
            r == Self::spec_address(),
            Self::spec_address() < 0x80,
    ;

    /// The register's address as an executable value.
    fn get_address(&self) -> (r: u8)
        ensures
            r == Self::spec_address(),
            Self::spec_address() < 0x80,
    ;

    /// Serializes the defined-bit content into four bytes, least-significant
    /// byte first. Reserved bits are zero in the result, however the word was
    /// set.
    fn get_bytes(&self) -> (r: [u8; 4])
        ensures
            r@ == spec_value_bytes(self.spec_bits() & Self::spec_mask()),
    ;

    /// Rebuilds a register from four bytes, least-significant byte first.
    /// Reserved bits of the input are discarded.
    fn from_bytes(data: [u8; 4]) -> (r: Self)
        ensures
            r.spec_bits() == spec_bytes_value(data@) & Self::spec_mask(),
            r.spec_bits() & Self::spec_mask() == r.spec_bits(),
    ;
}

/// The defined-bit content of a register: its raw word with reserved bits
/// cleared.
pub open spec fn reg_value<R: Register>(r: &R) -> u32 {
    r.spec_bits() & R::spec_mask()
}

/// Reassembling a value from its four payload bytes gives the value back.
pub proof fn lemma_bytes_value_roundtrip(v: u32)
    ensures
        spec_bytes_value(spec_value_bytes(v)) == v,
{
    let b0 = (v & 0xff) as u8;
    let b1 = ((v >> 8) & 0xff) as u8;
    let b2 = ((v >> 16) & 0xff) as u8;
    let b3 = ((v >> 24) & 0xff) as u8;
    assert((b0 as u32) | ((b1 as u32) << 8) | ((b2 as u32) << 16) | ((b3 as u32) << 24) == v)
        by (bit_vector)
        requires
            b0 == (v & 0xff) as u8,
            b1 == ((v >> 8) & 0xff) as u8,
            b2 == ((v >> 16) & 0xff) as u8,
            b3 == ((v >> 24) & 0xff) as u8,
    ;
}

/// Round trip: decoding the bytes a register encodes restores every defined
/// field. For any register `r`, reading back `get_bytes(r)` through
/// `from_bytes` yields a register with the same defined-bit content, so every
/// field accessor returns the value it was set to.
pub proof fn lemma_register_roundtrip<R: Register>(r: &R)
    ensures
        spec_bytes_value(spec_value_bytes(reg_value(r))) & R::spec_mask() == reg_value(r),
{
    lemma_bytes_value_roundtrip(reg_value(r));
    let x = r.spec_bits();
    let m = R::spec_mask();
    assert((x & m) & m == x & m) by (bit_vector);
}

/// Discarding reserved bits does not change a defined bit: masking with a
/// mask that has bit `i` set leaves bit `i` as it was.
pub proof fn lemma_defined_bit_unchanged(x: u32, m: u32, i: u32)
    requires
        i < 32,
        (1u32 << i) & m == (1u32 << i),
    ensures
        spec_reg_bit(x & m, i) == spec_reg_bit(x, i),
{
    assert(((1u32 << i) & m == (1u32 << i) && i < 32) ==> ((x & m) >> i) & 1 == (x >> i) & 1)
        by (bit_vector);
}

/// Round trip, stated per field for the flag register: a register `back`
/// rebuilt from the bytes `g` encodes (as `from_bytes` of `get_bytes` yields
/// it) returns from every flag accessor exactly what `g` returns.
pub proof fn lemma_gconf_flag_roundtrip(g: GCONF, back: GCONF, i: u32)
    requires
        i < 18,
        back.spec_bits() == spec_bytes_value(
            spec_value_bytes(g.spec_bits() & GCONF::spec_mask()),
        ) & GCONF::spec_mask(),
    ensures
        spec_reg_bit(back.spec_bits(), i) == spec_reg_bit(g.spec_bits(), i),
{
    lemma_bytes_value_roundtrip(g.spec_bits() & 0x0003_ffff);
    let x = g.spec_bits();
    assert((x & 0x0003_ffffu32) & 0x0003_ffff == x & 0x0003_ffff) by (bit_vector);
    assert(i < 18 ==> (1u32 << i) & 0x0003_ffffu32 == (1u32 << i)) by (bit_vector);
    lemma_defined_bit_unchanged(x, 0x0003_ffff, i);
}

/// Reserved bits are zero in every encoded buffer: the value reassembled from
/// the bytes a register encodes has nothing outside the defined-bit mask,
/// however the register's word was set internally.
pub proof fn lemma_reserved_bits_zero<R: Register>(r: &R)
    ensures
        spec_bytes_value(spec_value_bytes(reg_value(r))) & !R::spec_mask() == 0,
{
    lemma_bytes_value_roundtrip(reg_value(r));
    let x = r.spec_bits();
    let m = R::spec_mask();
    assert((x & m) & !m == 0) by (bit_vector);
}

/// The four payload bytes of `v`, least-significant byte first.
fn value_to_bytes(v: u32) -> (r: [u8; 4])
    ensures
        r@ == spec_value_bytes(v),
{
    let r: [u8; 4] = [
        (v & 0xff) as u8,
        ((v >> 8) & 0xff) as u8,
        ((v >> 16) & 0xff) as u8,
        ((v >> 24) & 0xff) as u8,
    ];
    proof {
        assert(r@ =~= spec_value_bytes(v));
    }
    r
}

/// The 32-bit value held by four payload bytes, least-significant byte first.
fn bytes_to_value(data: &[u8; 4]) -> (r: u32)
    ensures
        r == spec_bytes_value(data@),
{
    (data[0] as u32) | ((data[1] as u32) << 8) | ((data[2] as u32) << 16) | ((data[3] as u32)
        << 24)
}

/// Global configuration register at address `0x00`: eighteen one-bit flags in
/// bits 0 through 17, bits 18 through 31 reserved.
pub struct GCONF {
    bits: u32,
}

impl GCONF {
    /// A fresh register with every flag cleared.
    pub fn new() -> (r: GCONF)
        ensures
            r.spec_bits() == 0,
    {
        GCONF { bits: 0 }
    }

    /// Flag at bit 0.
    pub fn recalibrate(&self) -> (r: u8)
        ensures
            r == spec_reg_bit(self.spec_bits(), 0),
    {
        ((self.bits >> 0) & 1) as u8
    }

    /// Sets the flag at bit 0 to `v`.
    pub fn set_recalibrate(&mut self, v: u8)
        requires
            v <= 1,
        ensures
            final(self).spec_bits() == (old(self).spec_bits() & !(1u32 << 0)) | ((v as u32) << 0),
    {
        self.bits = (self.bits & !(1u32 << 0)) | ((v as u32) << 0);
    }

    /// Flag at bit 1.
    pub fn faststandstill(&self) -> (r: u8)
        ensures
            r == spec_reg_bit(self.spec_bits(), 1),
    {
        ((self.bits >> 1) & 1) as u8
    }

    /// Sets the flag at bit 1 to `v`.
    pub fn set_faststandstill(&mut self, v: u8)
        requires
            v <= 1,
        ensures
            final(self).spec_bits() == (old(self).spec_bits() & !(1u32 << 1)) | ((v as u32) << 1),
    {
        self.bits = (self.bits & !(1u32 << 1)) | ((v as u32) << 1);
    }

    /// Flag at bit 2.
    pub fn en_pwm_mode(&self) -> (r: u8)
        ensures
            r == spec_reg_bit(self.spec_bits(), 2),
    {
        ((self.bits >> 2) & 1) as u8
    }

    /// Sets the flag at bit 2 to `v`.
    pub fn set_en_pwm_mode(&mut self, v: u8)
        requires
            v <= 1,
        ensures
            final(self).spec_bits() == (old(self).spec_bits() & !(1u32 << 2)) | ((v as u32) << 2),
    {
        self.bits = (self.bits & !(1u32 << 2)) | ((v as u32) << 2);
    }

    /// Flag at bit 3.
    pub fn multistep_filt(&self) -> (r: u8)
        ensures
            r == spec_reg_bit(self.spec_bits(), 3),
    {
        ((self.bits >> 3) & 1) as u8
    }

    /// Sets the flag at bit 3 to `v`.
    pub fn set_multistep_filt(&mut self, v: u8)
        requires
            v <= 1,
        ensures
            final(self).spec_bits() == (old(self).spec_bits() & !(1u32 << 3)) | ((v as u32) << 3),
    {
        self.bits = (self.bits & !(1u32 << 3)) | ((v as u32) << 3);
    }

    /// Flag at bit 4.
    pub fn shaft(&self) -> (r: u8)
        ensures
            r == spec_reg_bit(self.spec_bits(), 4),
    {
        ((self.bits >> 4) & 1) as u8
    }

    /// Sets the flag at bit 4 to `v`.
    pub fn set_shaft(&mut self, v: u8)
        requires
            v <= 1,
        ensures
            final(self).spec_bits() == (old(self).spec_bits() & !(1u32 << 4)) | ((v as u32) << 4),
    {
        self.bits = (self.bits & !(1u32 << 4)) | ((v as u32) << 4);
    }

    /// Flag at bit 5.
    pub fn diag0_error(&self) -> (r: u8)
        ensures
            r == spec_reg_bit(self.spec_bits(), 5),
    {
        ((self.bits >> 5) & 1) as u8
    }

    /// Sets the flag at bit 5 to `v`.
    pub fn set_diag0_error(&mut self, v: u8)
        requires
            v <= 1,
        ensures
            final(self).spec_bits() == (old(self).spec_bits() & !(1u32 << 5)) | ((v as u32) << 5),
    {
        self.bits = (self.bits & !(1u32 << 5)) | ((v as u32) << 5);
    }

    /// Flag at bit 6.
    pub fn diag0_otpw(&self) -> (r: u8)
        ensures
            r == spec_reg_bit(self.spec_bits(), 6),
    {
        ((self.bits >> 6) & 1) as u8
    }

    /// Sets the flag at bit 6 to `v`.
    pub fn set_diag0_otpw(&mut self, v: u8)
        requires
            v <= 1,
        ensures
            final(self).spec_bits() == (old(self).spec_bits() & !(1u32 << 6)) | ((v as u32) << 6),
    {
        self.bits = (self.bits & !(1u32 << 6)) | ((v as u32) << 6);
    }

    /// Flag at bit 7.
    pub fn diag0_stall_step(&self) -> (r: u8)
        ensures
            r == spec_reg_bit(self.spec_bits(), 7),
    {
        ((self.bits >> 7) & 1) as u8
    }

    /// Sets the flag at bit 7 to `v`.
    pub fn set_diag0_stall_step(&mut self, v: u8)
        requires
            v <= 1,
        ensures
            final(self).spec_bits() == (old(self).spec_bits() & !(1u32 << 7)) | ((v as u32) << 7),
    {
        self.bits = (self.bits & !(1u32 << 7)) | ((v as u32) << 7);
    }

    /// Flag at bit 8.
    pub fn diag1_stall_dir(&self) -> (r: u8)
        ensures
            r == spec_reg_bit(self.spec_bits(), 8),
    {
        ((self.bits >> 8) & 1) as u8
    }

    /// Sets the flag at bit 8 to `v`.
    pub fn set_diag1_stall_dir(&mut self, v: u8)
        requires
            v <= 1,
        ensures
            final(self).spec_bits() == (old(self).spec_bits() & !(1u32 << 8)) | ((v as u32) << 8),
    {
        self.bits = (self.bits & !(1u32 << 8)) | ((v as u32) << 8);
    }

    /// Flag at bit 9.
    pub fn diag1_index(&self) -> (r: u8)
        ensures
            r == spec_reg_bit(self.spec_bits(), 9),
    {
        ((self.bits >> 9) & 1) as u8
    }

    /// Sets the flag at bit 9 to `v`.
    pub fn set_diag1_index(&mut self, v: u8)
        requires
            v <= 1,
        ensures
            final(self).spec_bits() == (old(self).spec_bits() & !(1u32 << 9)) | ((v as u32) << 9),
    {
        self.bits = (self.bits & !(1u32 << 9)) | ((v as u32) << 9);
    }

    /// Flag at bit 10.
    pub fn diag1_onstate(&self) -> (r: u8)
        ensures
            r == spec_reg_bit(self.spec_bits(), 10),
    {
        ((self.bits >> 10) & 1) as u8
    }

    /// Sets the flag at bit 10 to `v`.
    pub fn set_diag1_onstate(&mut self, v: u8)
        requires
            v <= 1,
        ensures
            final(self).spec_bits() == (old(self).spec_bits() & !(1u32 << 10)) | (
            (v as u32) << 10),
    {
        self.bits = (self.bits & !(1u32 << 10)) | ((v as u32) << 10);
    }

    /// Flag at bit 11.
    pub fn diag1_steps_skipped(&self) -> (r: u8)
        ensures
            r == spec_reg_bit(self.spec_bits(), 11),
    {
        ((self.bits >> 11) & 1) as u8
    }

    /// Sets the flag at bit 11 to `v`.
    pub fn set_diag1_steps_skipped(&mut self, v: u8)
        requires
            v <= 1,
        ensures
            final(self).spec_bits() == (old(self).spec_bits() & !(1u32 << 11)) | (
            (v as u32) << 11),
    {
        self.bits = (self.bits & !(1u32 << 11)) | ((v as u32) << 11);
    }

    /// Flag at bit 12.
    pub fn diag0_int_pushpull(&self) -> (r: u8)
        ensures
            r == spec_reg_bit(self.spec_bits(), 12),
    {
        ((self.bits >> 12) & 1) as u8
    }

    /// Sets the flag at bit 12 to `v`.
    pub fn set_diag0_int_pushpull(&mut self, v: u8)
        requires
            v <= 1,
        ensures
            final(self).spec_bits() == (old(self).spec_bits() & !(1u32 << 12)) | (
            (v as u32) << 12),
    {
        self.bits = (self.bits & !(1u32 << 12)) | ((v as u32) << 12);
    }

    /// Flag at bit 13.
    pub fn diag1_poscomp_pushpull(&self) -> (r: u8)
        ensures
            r == spec_reg_bit(self.spec_bits(), 13),
    {
        ((self.bits >> 13) & 1) as u8
    }

    /// Sets the flag at bit 13 to `v`.
    pub fn set_diag1_poscomp_pushpull(&mut self, v: u8)
        requires
            v <= 1,
        ensures
            final(self).spec_bits() == (old(self).spec_bits() & !(1u32 << 13)) | (
            (v as u32) << 13),
    {
        self.bits = (self.bits & !(1u32 << 13)) | ((v as u32) << 13);
    }

    /// Flag at bit 14.
    pub fn small_hstesis(&self) -> (r: u8)
        ensures
            r == spec_reg_bit(self.spec_bits(), 14),
    {
        ((self.bits >> 14) & 1) as u8
    }

    /// Sets the flag at bit 14 to `v`.
    pub fn set_small_hstesis(&mut self, v: u8)
        requires
            v <= 1,
        ensures
            final(self).spec_bits() == (old(self).spec_bits() & !(1u32 << 14)) | (
            (v as u32) << 14),
    {
        self.bits = (self.bits & !(1u32 << 14)) | ((v as u32) << 14);
    }

    /// Flag at bit 15.
    pub fn stop_enable(&self) -> (r: u8)
        ensures
            r == spec_reg_bit(self.spec_bits(), 15),
    {
        ((self.bits >> 15) & 1) as u8
    }

    /// Sets the flag at bit 15 to `v`.
    pub fn set_stop_enable(&mut self, v: u8)
        requires
            v <= 1,
        ensures
            final(self).spec_bits() == (old(self).spec_bits() & !(1u32 << 15)) | (
            (v as u32) << 15),
    {
        self.bits = (self.bits & !(1u32 << 15)) | ((v as u32) << 15);
    }

    /// Flag at bit 16.
    pub fn direct_mode(&self) -> (r: u8)
        ensures
            r == spec_reg_bit(self.spec_bits(), 16),
    {
        ((self.bits >> 16) & 1) as u8
    }

    /// Sets the flag at bit 16 to `v`.
    pub fn set_direct_mode(&mut self, v: u8)
        requires
            v <= 1,
        ensures
            final(self).spec_bits() == (old(self).spec_bits() & !(1u32 << 16)) | (
            (v as u32) << 16),
    {
        self.bits = (self.bits & !(1u32 << 16)) | ((v as u32) << 16);
    }

    /// Flag at bit 17.
    pub fn test_mode(&self) -> (r: u8)
        ensures
            r == spec_reg_bit(self.spec_bits(), 17),
    {
        ((self.bits >> 17) & 1) as u8
    }

    /// Sets the flag at bit 17 to `v`.
    pub fn set_test_mode(&mut self, v: u8)
        requires
            v <= 1,
        ensures
            final(self).spec_bits() == (old(self).spec_bits() & !(1u32 << 17)) | (
            (v as u32) << 17),
    {
        self.bits = (self.bits & !(1u32 << 17)) | ((v as u32) << 17);
    }
}

impl Register for GCONF {
    open spec fn spec_address() -> u8 {
        0x00
    }

    open spec fn spec_mask() -> u32 {
        0x0003_ffff
    }

    closed spec fn spec_bits(&self) -> u32 {
        self.bits
    }

    fn address() -> (r: u8) {
        0x00
    }

    fn get_address(&self) -> (r: u8) {
        0x00
    }

    fn get_bytes(&self) -> (r: [u8; 4]) {
        value_to_bytes(self.bits & 0x0003_ffff)
    }

    fn from_bytes(data: [u8; 4]) -> (r: GCONF) {
        let v = bytes_to_value(&data);
        let r = GCONF { bits: v & 0x0003_ffff };
        proof {
            assert((v & 0x0003_ffffu32) & 0x0003_ffff == v & 0x0003_ffff) by (bit_vector);
        }
        r
    }
}

/// Actual motor position register at address `0x21`: one 32-bit value, no
/// reserved bits.
pub struct XACTUAL {
    bits: u32,
}

impl XACTUAL {
    /// A fresh register with value zero.
    pub fn new() -> (r: XACTUAL)
        ensures
            r.spec_bits() == 0,
    {
        XACTUAL { bits: 0 }
    }

    /// The register holding value `v`.
    pub fn with_value(self, v: u32) -> (r: XACTUAL)
        ensures
            r.spec_bits() == v,
    {
        XACTUAL { bits: v }
    }

    /// Sets the 32-bit value.
    pub fn set_value(&mut self, v: u32)
        ensures
            final(self).spec_bits() == v,
    {
        self.bits = v;
    }

    /// The 32-bit value, bits 0 through 31.
    pub fn value(&self) -> (r: u32)
        ensures
            r == self.spec_bits(),
    {
        self.bits
    }
}

impl Register for XACTUAL {
    open spec fn spec_address() -> u8 {
        0x21
    }

    open spec fn spec_mask() -> u32 {
        0xffff_ffff
    }

    closed spec fn spec_bits(&self) -> u32 {
        self.bits
    }

    fn address() -> (r: u8) {
        0x21
    }

    fn get_address(&self) -> (r: u8) {
        0x21
    }

    fn get_bytes(&self) -> (r: [u8; 4]) {
        value_to_bytes(self.bits & 0xffff_ffff)
    }

    fn from_bytes(data: [u8; 4]) -> (r: XACTUAL) {
        let v = bytes_to_value(&data);
        let r = XACTUAL { bits: v & 0xffff_ffff };
        proof {
            assert((v & 0xffff_ffffu32) & 0xffff_ffff == v & 0xffff_ffff) by (bit_vector);
        }
        r
    }
}

/// Target maximum velocity register at address `0x27`: one 23-bit value in
/// bits 0 through 22, bits 23 through 31 reserved.
pub struct VMAX {
    bits: u32,
}

impl VMAX {
    /// A fresh register with value zero.
    pub fn new() -> (r: VMAX)
        ensures
            r.spec_bits() == 0,
    {
        VMAX { bits: 0 }
    }

    /// The register holding value `v`. A value above 23 bits is a caller
    /// contract violation, so it is excluded here.
    pub fn with_value(self, v: u32) -> (r: VMAX)
        requires
            v <= 0x007f_ffff,
        ensures
            r.spec_bits() == (self.spec_bits() & !0x007f_ffffu32) | v,
    {
        VMAX { bits: (self.bits & !0x007f_ffffu32) | v }
    }

    /// Sets the 23-bit value. A value above 23 bits is a caller contract
    /// violation, so it is excluded here.
    pub fn set_value(&mut self, v: u32)
        requires
            v <= 0x007f_ffff,
        ensures
            final(self).spec_bits() == (old(self).spec_bits() & !0x007f_ffffu32) | v,
    {
        self.bits = (self.bits & !0x007f_ffffu32) | v;
    }

    /// The 23-bit value, bits 0 through 22.
    pub fn value(&self) -> (r: u32)
        ensures
            r == self.spec_bits() & 0x007f_ffff,
    {
        self.bits & 0x007f_ffff
    }
}

impl Register for VMAX {
    open spec fn spec_address() -> u8 {
        0x27
    }

    open spec fn spec_mask() -> u32 {
        0x007f_ffff
    }

    closed spec fn spec_bits(&self) -> u32 {
        self.bits
    }

    fn address() -> (r: u8) {
        0x27
    }

    fn get_address(&self) -> (r: u8) {
        0x27
    }

    fn get_bytes(&self) -> (r: [u8; 4]) {
        value_to_bytes(self.bits & 0x007f_ffff)
    }

    fn from_bytes(data: [u8; 4]) -> (r: VMAX) {
        let v = bytes_to_value(&data);
        let r = VMAX { bits: v & 0x007f_ffff };
        proof {
            assert((v & 0x007f_ffffu32) & 0x007f_ffff == v & 0x007f_ffff) by (bit_vector);
        }
        r
    }
}

/// Global current scaler register: one 8-bit value in bits 0 through 7, bits 8
/// through 31 reserved. It is a plain bit layout without a `Register`
/// implementation, so it takes no part in driver transactions here.
pub struct GlobalScaler {
    bits: u32,
}

impl GlobalScaler {
    /// The raw 32-bit word.
    pub closed spec fn spec_bits(&self) -> u32 {
        self.bits
    }

    /// A fresh register with value zero.
    pub fn new() -> (r: GlobalScaler)
        ensures
            r.spec_bits() == 0,
    {
        GlobalScaler { bits: 0 }
    }

    /// The 8-bit scaler value, bits 0 through 7.
    pub fn globalscaler(&self) -> (r: u8)
        ensures
            r == (self.spec_bits() & 0xff) as u8,
    {
        (self.bits & 0xff) as u8
    }

    /// Sets the 8-bit scaler value.
    pub fn set_globalscaler(&mut self, v: u8)
        ensures
            final(self).spec_bits() == (old(self).spec_bits() & !0xffu32) | (v as u32),
    {
        self.bits = (self.bits & !0xffu32) | (v as u32);
    }

    /// Serializes the defined-bit content into four bytes, least-significant
    /// byte first. Reserved bits are zero in the result.
    pub fn into_bytes(self) -> (r: [u8; 4])
        ensures
            r@ == spec_value_bytes(self.spec_bits() & 0xff),
    {
        value_to_bytes(self.bits & 0xff)
    }
}

} // verus!
