//! Sampling configuration: data rate, oversampling ratio, and the encoding
//! of a (rate, oversampling, enabled) triple into the single control byte
//! the device expects.

use vstd::prelude::*;

verus! {

/// Bit range of the control byte occupied by the data rate.
pub const RATE_MASK: u8 = 0xE0;

/// Bit range of the control byte occupied by the oversampling ratio.
pub const OVERSAMPLING_MASK: u8 = 0x18;

/// Bit of the control byte that enables sampling.
pub const ENABLED_MASK: u8 = 0x01;

/// The eight discrete output data rates the device offers.
#[allow(non_camel_case_types)]
#[derive(Copy, Clone, PartialEq, Eq, Structural, Debug)]
pub enum DataRate {
    /// 80 Hz, maximum speed at 16 times oversampling
    HZ80,
    /// 40 Hz
    HZ40,
    /// 20 Hz
    HZ20,
    /// 10 Hz
    HZ10,
    /// 5 Hz
    HZ5,
    /// 2.5 Hz
    HZ2_5,
    /// 1.25 Hz
    HZ1_25,
    /// 0.63 Hz
    HZ0_63,
}

impl DataRate {
    /// The fixed bit pattern of the rate within the control byte.
    pub open spec fn bits_spec(self) -> u8 {
        match self {
            DataRate::HZ80 => 0x00,
            DataRate::HZ40 => 0x20,
            DataRate::HZ20 => 0x40,
            DataRate::HZ10 => 0x60,
            DataRate::HZ5 => 0x80,
            DataRate::HZ2_5 => 0xA0,
            DataRate::HZ1_25 => 0xC0,
            DataRate::HZ0_63 => 0xE0,
        }
    }

    /// Returns the fixed bit pattern of the rate within the control byte.
    pub fn bits(&self) -> (r: u8)
        ensures
            r == self.bits_spec(),
    {
        match self {
            DataRate::HZ80 => 0x00,
            DataRate::HZ40 => 0x20,
            DataRate::HZ20 => 0x40,
            DataRate::HZ10 => 0x60,
            DataRate::HZ5 => 0x80,
            DataRate::HZ2_5 => 0xA0,
            DataRate::HZ1_25 => 0xC0,
            DataRate::HZ0_63 => 0xE0,
        }
    }
}

/// The four discrete oversampling ratios the device offers: the number of
/// internal samples averaged per reported measurement.
#[derive(Copy, Clone, PartialEq, Eq, Structural, Debug)]
pub enum Oversampling {
    /// 16 times oversampling, maximum speed at 80 Hz
    OV16,
    /// 32 times oversampling
    OV32,
    /// 64 times oversampling
    OV64,
    /// 128 times oversampling
    OV128,
}

impl Oversampling {
    /// The fixed bit pattern of the ratio within the control byte.
    pub open spec fn bits_spec(self) -> u8 {
        match self {
            Oversampling::OV16 => 0x00,
            Oversampling::OV32 => 0x08,
            Oversampling::OV64 => 0x10,
            Oversampling::OV128 => 0x18,
        }
    }

    /// Returns the fixed bit pattern of the ratio within the control byte.
    pub fn bits(&self) -> (r: u8)
        ensures
            r == self.bits_spec(),
    {
        match self {
            Oversampling::OV16 => 0x00,
            Oversampling::OV32 => 0x08,
            Oversampling::OV64 => 0x10,
            Oversampling::OV128 => 0x18,
        }
    }
}

/// The control byte encoding a (rate, oversampling, enabled) triple: the
/// bitwise union of the three components' fixed bit patterns, `enabled`
/// occupying bit 0. The three sub-fields occupy disjoint bit ranges
/// ([`lemma_control_fields_disjoint`]), so the union loses nothing.
pub open spec fn encode_spec(rate: DataRate, oversampling: Oversampling, enabled: bool) -> u8 {
    rate.bits_spec() | oversampling.bits_spec() | (if enabled {
        1u8
    } else {
        0u8
    })
}

/// Encodes a (rate, oversampling, enabled) triple into the single control
/// byte the device expects.
pub fn encode(rate: DataRate, oversampling: Oversampling, enabled: bool) -> (r: u8)
    ensures
        r == encode_spec(rate, oversampling, enabled),
{
    rate.bits() | oversampling.bits() | (if enabled {
        1u8
    } else {
        0u8
    })
}

/// Every rate pattern lies within [`RATE_MASK`].
proof fn lemma_rate_bits_in_mask(rate: DataRate)
    ensures
        rate.bits_spec() & RATE_MASK == rate.bits_spec(),
{
    match rate {
        DataRate::HZ80 => assert(0x00u8 & 0xE0u8 == 0x00u8) by (bit_vector),
        DataRate::HZ40 => assert(0x20u8 & 0xE0u8 == 0x20u8) by (bit_vector),
        DataRate::HZ20 => assert(0x40u8 & 0xE0u8 == 0x40u8) by (bit_vector),
        DataRate::HZ10 => assert(0x60u8 & 0xE0u8 == 0x60u8) by (bit_vector),
        DataRate::HZ5 => assert(0x80u8 & 0xE0u8 == 0x80u8) by (bit_vector),
        DataRate::HZ2_5 => assert(0xA0u8 & 0xE0u8 == 0xA0u8) by (bit_vector),
        DataRate::HZ1_25 => assert(0xC0u8 & 0xE0u8 == 0xC0u8) by (bit_vector),
        DataRate::HZ0_63 => assert(0xE0u8 & 0xE0u8 == 0xE0u8) by (bit_vector),
    }
}

/// Every oversampling pattern lies within [`OVERSAMPLING_MASK`].
proof fn lemma_oversampling_bits_in_mask(oversampling: Oversampling)
    ensures
        oversampling.bits_spec() & OVERSAMPLING_MASK == oversampling.bits_spec(),
{
    match oversampling {
        Oversampling::OV16 => assert(0x00u8 & 0x18u8 == 0x00u8) by (bit_vector),
        Oversampling::OV32 => assert(0x08u8 & 0x18u8 == 0x08u8) by (bit_vector),
        Oversampling::OV64 => assert(0x10u8 & 0x18u8 == 0x10u8) by (bit_vector),
        Oversampling::OV128 => assert(0x18u8 & 0x18u8 == 0x18u8) by (bit_vector),
    }
}

/// The three sub-fields of the control byte occupy disjoint bit ranges: the
/// masks of any two distinct groups AND to zero, and so do the concrete bit
/// patterns of any rate/oversampling pair, each with the enabled bit as well.
/// Encoding is therefore a pure bitwise union with no carry or overlap.
pub proof fn lemma_control_fields_disjoint(rate: DataRate, oversampling: Oversampling)
    ensures
        RATE_MASK & OVERSAMPLING_MASK == 0,
        RATE_MASK & ENABLED_MASK == 0,
        OVERSAMPLING_MASK & ENABLED_MASK == 0,
        rate.bits_spec() & oversampling.bits_spec() == 0,
        rate.bits_spec() & ENABLED_MASK == 0,
        oversampling.bits_spec() & ENABLED_MASK == 0,
{
    lemma_rate_bits_in_mask(rate);
    lemma_oversampling_bits_in_mask(oversampling);
    assert(0xE0u8 & 0x18u8 == 0 && 0xE0u8 & 0x01u8 == 0 && 0x18u8 & 0x01u8 == 0) by (bit_vector);
    let r = rate.bits_spec();
    let o = oversampling.bits_spec();
    assert(r & o == 0 && r & 0x01u8 == 0 && o & 0x01u8 == 0) by (bit_vector)
        requires
            r & 0xE0u8 == r,
            o & 0x18u8 == o,
    ;
}

} // verus!
