//! The processor status register.
//!
//! The register is one byte, laid out as `NV__DIZC`: bit 0 is Carry, bit 1
//! Zero, bit 2 Interrupt-Disable, bit 3 Decimal, bit 6 Overflow and bit 7
//! Negative. Bits 4 and 5 belong to no flag; no operation here reads them and
//! every operation here keeps them as they are.
//!
//! Contracts speak of a status byte through [`Flags`], its reading as eight
//! booleans. The reading loses nothing: two bytes with the same reading are the
//! same byte.

use vstd::prelude::*;

verus! {

/// One of the six condition flags.
#[derive(Clone, Copy, Debug, PartialEq, Eq, Structural)]
pub enum Flag {
    Carry,
    Zero,
    InterruptDisable,
    Decimal,
    Overflow,
    Negative,
}

/// A status byte read bit by bit.
pub struct Flags {
    pub carry: bool,
    pub zero: bool,
    pub interrupt_disable: bool,
    pub decimal: bool,
    pub bit4: bool,
    pub bit5: bool,
    pub overflow: bool,
    pub negative: bool,
}

/// The bit of the status byte that holds `flag`.
pub open spec fn mask_of(flag: Flag) -> u8 {
    match flag {
        Flag::Carry => 0x01,
        Flag::Zero => 0x02,
        Flag::InterruptDisable => 0x04,
        Flag::Decimal => 0x08,
        Flag::Overflow => 0x40,
        Flag::Negative => 0x80,
    }
}

/// The weight of a bit in a byte: `weight` if the bit is set, else nothing.
pub open spec fn bit_value(on: bool, weight: int) -> int {
    if on {
        weight
    } else {
        0
    }
}

impl Flags {
    /// The reading of a status byte.
    pub open spec fn of(bits: u8) -> Flags {
        Flags {
            carry: bits & 0x01 != 0,
            zero: bits & 0x02 != 0,
            interrupt_disable: bits & 0x04 != 0,
            decimal: bits & 0x08 != 0,
            bit4: bits & 0x10 != 0,
            bit5: bits & 0x20 != 0,
            overflow: bits & 0x40 != 0,
            negative: bits & 0x80 != 0,
        }
    }

    /// The status byte with this reading.
    pub open spec fn byte(self) -> u8 {
        (bit_value(self.carry, 1) + bit_value(self.zero, 2) + bit_value(self.interrupt_disable, 4)
            + bit_value(self.decimal, 8) + bit_value(self.bit4, 16) + bit_value(self.bit5, 32)
            + bit_value(self.overflow, 64) + bit_value(self.negative, 128)) as u8
    }

    /// Whether `flag` is set.
    pub open spec fn get(self, flag: Flag) -> bool {
        match flag {
            Flag::Carry => self.carry,
            Flag::Zero => self.zero,
            Flag::InterruptDisable => self.interrupt_disable,
            Flag::Decimal => self.decimal,
            Flag::Overflow => self.overflow,
            Flag::Negative => self.negative,
        }
    }

    /// This reading with `flag` set to `on` and every other bit kept.
    pub open spec fn with(self, flag: Flag, on: bool) -> Flags {
        match flag {
            Flag::Carry => Flags { carry: on, ..self },
            Flag::Zero => Flags { zero: on, ..self },
            Flag::InterruptDisable => Flags { interrupt_disable: on, ..self },
            Flag::Decimal => Flags { decimal: on, ..self },
            Flag::Overflow => Flags { overflow: on, ..self },
            Flag::Negative => Flags { negative: on, ..self },
        }
    }

    /// This reading after an operation produced `value`: Zero says that the
    /// value is zero, Negative that its bit 7 is set, the rest is kept.
    pub open spec fn with_zero_negative(self, value: u8) -> Flags {
        Flags { zero: value == 0, negative: value >= 128, ..self }
    }

    /// This reading with the six flags taken from `other` and bits 4 and 5 kept.
    pub open spec fn with_flags_of(self, other: Flags) -> Flags {
        Flags { bit4: self.bit4, bit5: self.bit5, ..other }
    }
}

/// The bit that holds `flag`.
pub fn mask(flag: Flag) -> (m: u8)
    ensures
        m == mask_of(flag),
{
    match flag {
        Flag::Carry => 0x01,
        Flag::Zero => 0x02,
        Flag::InterruptDisable => 0x04,
        Flag::Decimal => 0x08,
        Flag::Overflow => 0x40,
        Flag::Negative => 0x80,
    }
}

proof fn lemma_or_bit(bits: u8, m: u8)
    by (bit_vector)
    requires
        m == 0x01 || m == 0x02 || m == 0x04 || m == 0x08 || m == 0x10 || m == 0x20 || m == 0x40 || m
            == 0x80,
    ensures
        ((bits | m) & 0x01 != 0) == (m == 0x01 || bits & 0x01 != 0),
        ((bits | m) & 0x02 != 0) == (m == 0x02 || bits & 0x02 != 0),
        ((bits | m) & 0x04 != 0) == (m == 0x04 || bits & 0x04 != 0),
        ((bits | m) & 0x08 != 0) == (m == 0x08 || bits & 0x08 != 0),
        ((bits | m) & 0x10 != 0) == (m == 0x10 || bits & 0x10 != 0),
        ((bits | m) & 0x20 != 0) == (m == 0x20 || bits & 0x20 != 0),
        ((bits | m) & 0x40 != 0) == (m == 0x40 || bits & 0x40 != 0),
        ((bits | m) & 0x80 != 0) == (m == 0x80 || bits & 0x80 != 0),
{
}

proof fn lemma_and_not_bit(bits: u8, m: u8)
    by (bit_vector)
    requires
        m == 0x01 || m == 0x02 || m == 0x04 || m == 0x08 || m == 0x10 || m == 0x20 || m == 0x40 || m
            == 0x80,
    ensures
        ((bits & !m) & 0x01 != 0) == (m != 0x01 && bits & 0x01 != 0),
        ((bits & !m) & 0x02 != 0) == (m != 0x02 && bits & 0x02 != 0),
        ((bits & !m) & 0x04 != 0) == (m != 0x04 && bits & 0x04 != 0),
        ((bits & !m) & 0x08 != 0) == (m != 0x08 && bits & 0x08 != 0),
        ((bits & !m) & 0x10 != 0) == (m != 0x10 && bits & 0x10 != 0),
        ((bits & !m) & 0x20 != 0) == (m != 0x20 && bits & 0x20 != 0),
        ((bits & !m) & 0x40 != 0) == (m != 0x40 && bits & 0x40 != 0),
        ((bits & !m) & 0x80 != 0) == (m != 0x80 && bits & 0x80 != 0),
{
}

/// Whether `flag` is set in the status byte `bits`.
pub fn test_flag(bits: u8, flag: Flag) -> (on: bool)
    ensures
        on == Flags::of(bits).get(flag),
{
    bits & mask(flag) != 0
}

/// The status byte `bits` with `flag` set and every other bit kept.
pub fn set_flag(bits: u8, flag: Flag) -> (r: u8)
    ensures
        Flags::of(r) == Flags::of(bits).with(flag, true),
{
    let m = mask(flag);
    proof {
        lemma_or_bit(bits, m);
    }
    bits | m
}

/// The status byte `bits` with `flag` cleared and every other bit kept.
pub fn clear_flag(bits: u8, flag: Flag) -> (r: u8)
    ensures
        Flags::of(r) == Flags::of(bits).with(flag, false),
{
    let m = mask(flag);
    proof {
        lemma_and_not_bit(bits, m);
    }
    bits & !m
}

/// The status byte `bits` with `flag` set to `on` and every other bit kept.
pub fn assign_flag(bits: u8, flag: Flag, on: bool) -> (r: u8)
    ensures
        Flags::of(r) == Flags::of(bits).with(flag, on),
{
    if on {
        set_flag(bits, flag)
    } else {
        clear_flag(bits, flag)
    }
}

/// The status byte after an operation produced `value`: Zero is set exactly
/// when `value` is zero, Negative exactly when bit 7 of `value` is set, and no
/// other bit changes.
pub fn update_zero_negative(bits: u8, value: u8) -> (r: u8)
    ensures
        Flags::of(r) == Flags::of(bits).with_zero_negative(value),
{
    assert((value & 0x80 != 0) == (value >= 128)) by (bit_vector);
    let zero_done = assign_flag(bits, Flag::Zero, value == 0);
    assign_flag(zero_done, Flag::Negative, value & 0x80 != 0)
}

/// The status byte `bits` with its six flags replaced by those of `source`;
/// bits 4 and 5 of `bits` are kept.
pub fn replace_flags(bits: u8, source: u8) -> (r: u8)
    ensures
        Flags::of(r) == Flags::of(bits).with_flags_of(Flags::of(source)),
{
    assert({
        let r = (source & 0xCF) | (bits & 0x30);
        &&& (r & 0x01 != 0) == (source & 0x01 != 0)
        &&& (r & 0x02 != 0) == (source & 0x02 != 0)
        &&& (r & 0x04 != 0) == (source & 0x04 != 0)
        &&& (r & 0x08 != 0) == (source & 0x08 != 0)
        &&& (r & 0x10 != 0) == (bits & 0x10 != 0)
        &&& (r & 0x20 != 0) == (bits & 0x20 != 0)
        &&& (r & 0x40 != 0) == (source & 0x40 != 0)
        &&& (r & 0x80 != 0) == (source & 0x80 != 0)
    }) by (bit_vector);
    (source & 0xCF) | (bits & 0x30)
}

/// The byte that a push of the status register writes: the status byte with
/// bits 4 and 5 set.
pub fn pushed_status(bits: u8) -> (r: u8)
    ensures
        r == (Flags { bit4: true, bit5: true, ..Flags::of(bits) }).byte(),
{
    proof {
        lemma_or_bit(bits, 0x10);
        lemma_or_bit(bits | 0x10, 0x20);
        assert((bits | 0x10) | 0x20 == bits | 0x30) by (bit_vector);
        lemma_byte_of_reading(bits | 0x30);
    }
    bits | 0x30
}

/// A status byte is the sum of the weights of its set bits.
pub proof fn lemma_byte_of_reading(bits: u8)
    ensures
        Flags::of(bits).byte() == bits,
{
    assert(bits == (if bits & 0x01 != 0 { 1u8 } else { 0u8 })
        + (if bits & 0x02 != 0 { 2u8 } else { 0u8 })
        + (if bits & 0x04 != 0 { 4u8 } else { 0u8 })
        + (if bits & 0x08 != 0 { 8u8 } else { 0u8 })
        + (if bits & 0x10 != 0 { 16u8 } else { 0u8 })
        + (if bits & 0x20 != 0 { 32u8 } else { 0u8 })
        + (if bits & 0x40 != 0 { 64u8 } else { 0u8 })
        + (if bits & 0x80 != 0 { 128u8 } else { 0u8 }))
        by (bit_vector);
}

/// Two status bytes with the same reading are the same byte.
pub proof fn lemma_reading_determines_byte(a: u8, b: u8)
    requires
        Flags::of(a) == Flags::of(b),
    ensures
        a == b,
{
    lemma_byte_of_reading(a);
    lemma_byte_of_reading(b);
}

/// Every reading is the reading of its byte.
pub proof fn lemma_reading_of_byte(flags: Flags)
    ensures
        Flags::of(flags.byte()) == flags,
{
    let b = flags.byte();
    lemma_byte_of_reading(b);
    let g = Flags::of(b);
    // Both readings weigh the same; the weights are powers of two, so the
    // readings agree bit by bit.
    assert(g.byte() == flags.byte());
}

/// A flag reads as it was last written, and writing one flag leaves the
/// others as they were.
pub proof fn lemma_flag_write_then_read(flags: Flags, written: Flag, on: bool, read: Flag)
    ensures
        flags.with(written, on).get(read) == (if read == written {
            on
        } else {
            flags.get(read)
        }),
{
}

} // verus!
