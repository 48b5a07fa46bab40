//! Byte and word arithmetic of the processor.
//!
//! Every operation here is total: a result that does not fit in eight or
//! sixteen bits wraps, and what was lost is reported in a carry or overflow
//! bit, never as an error. The specifications are stated over unbounded
//! integers; the executable functions work in machine words.

use vstd::prelude::*;

verus! {

/// The byte that `i` leaves when it wraps to eight bits.
pub open spec fn wrap8(i: int) -> u8 {
    (i % 256) as u8
}

/// The word that `i` leaves when it wraps to sixteen bits.
pub open spec fn wrap16(i: int) -> u16 {
    (i % 65536) as u16
}

/// The byte `v` read as a two's-complement number.
pub open spec fn signed(v: u8) -> int {
    if v < 128 {
        v as int
    } else {
        v - 256
    }
}

/// 1 for a set bit, 0 for a clear one.
pub open spec fn bit(on: bool) -> int {
    if on {
        1
    } else {
        0
    }
}

/// What an addition or subtraction leaves: the byte, the carry out of bit 7
/// and whether the signed result left the range -128..=127.
pub struct Sum {
    pub value: u8,
    pub carry: bool,
    pub overflow: bool,
}

/// What a shift, a rotation or a comparison leaves: the byte and the carry.
pub struct Shifted {
    pub value: u8,
    pub carry: bool,
}

/// `a + v + carry`: the byte is the sum modulo 256, the carry says that the
/// unsigned sum passed 255, the overflow that the signed sum left -128..=127.
pub open spec fn sum_with_carry(a: u8, v: u8, carry: bool) -> Sum {
    let unsigned = a + v + bit(carry);
    let two_complement = signed(a) + signed(v) + bit(carry);
    Sum {
        value: wrap8(unsigned),
        carry: unsigned > 255,
        overflow: two_complement < -128 || two_complement > 127,
    }
}

/// `a - v - (1 - carry)`: the carry is the inverse of a borrow, so it is set
/// when the unsigned difference is not negative.
pub open spec fn difference_with_borrow(a: u8, v: u8, carry: bool) -> Sum {
    let unsigned = a - v - bit(!carry);
    let two_complement = signed(a) - signed(v) - bit(!carry);
    Sum {
        value: wrap8(unsigned),
        carry: unsigned >= 0,
        overflow: two_complement < -128 || two_complement > 127,
    }
}

/// `v` moved one bit to the left; `carry_in` enters at bit 0 and bit 7 leaves
/// into the carry.
pub open spec fn rotated_left(v: u8, carry_in: bool) -> Shifted {
    Shifted { value: wrap8(2 * v + bit(carry_in)), carry: v >= 128 }
}

/// `v` moved one bit to the right; `carry_in` enters at bit 7 and bit 0 leaves
/// into the carry.
pub open spec fn rotated_right(v: u8, carry_in: bool) -> Shifted {
    Shifted { value: (v / 2 + 128 * bit(carry_in)) as u8, carry: v % 2 == 1 }
}

/// `register - v` as a comparison: the byte is the difference modulo 256 and
/// the carry says that `register` is not below `v`.
pub open spec fn compared(register: u8, v: u8) -> Shifted {
    Shifted { value: wrap8(register - v), carry: register >= v }
}

/// The word with low byte `lo` and high byte `hi`.
pub open spec fn word_of(lo: u8, hi: u8) -> u16 {
    (lo + 256 * hi) as u16
}

/// The address `offset` bytes from `from`, the offset read as a signed byte.
pub open spec fn displaced(from: u16, offset: u8) -> u16 {
    wrap16(from + signed(offset))
}

/// The address that follows `p` inside the page of `p`: after the last byte of
/// a page comes the first byte of the same page.
pub open spec fn next_in_page(p: u16) -> u16 {
    ((p / 256) * 256 + (p + 1) % 256) as u16
}

/// Adds `v` and the carry to `a`.
pub fn add_with_carry(a: u8, v: u8, carry: bool) -> (r: Sum)
    ensures
        r == sum_with_carry(a, v, carry),
{
    let carry_in: u16 = if carry {
        1
    } else {
        0
    };
    let wide: u16 = a as u16 + v as u16 + carry_in;
    let value: u8 = (wide & 0xFF) as u8;
    let overflow = (a ^ value) & (v ^ value) & 0x80 != 0;
    proof {
        assert(wide & 0xFF == wide % 256) by (bit_vector);
        assert(((a ^ value) & (v ^ value) & 0x80 != 0) == ((a >= 128) != (value >= 128) && (v
            >= 128) != (value >= 128))) by (bit_vector);
    }
    Sum { value, carry: wide > 0xFF, overflow }
}

/// Subtracts `v` from `a`, and one more if the carry is clear.
pub fn subtract_with_borrow(a: u8, v: u8, carry: bool) -> (r: Sum)
    ensures
        r == difference_with_borrow(a, v, carry),
{
    proof {
        assert(!v == 255 - v) by (bit_vector);
    }
    add_with_carry(a, !v, carry)
}

/// Moves `v` one bit to the left through the carry. With `carry_in` clear
/// this is a plain shift.
pub fn rotate_left(v: u8, carry_in: bool) -> (r: Shifted)
    ensures
        r == rotated_left(v, carry_in),
{
    let low: u8 = if carry_in {
        1
    } else {
        0
    };
    proof {
        assert(((v << 1) | low) == (2 * v + low) % 256) by (bit_vector)
            requires
                low <= 1,
        ;
        assert((v & 0x80 != 0) == (v >= 128)) by (bit_vector);
    }
    Shifted { value: (v << 1) | low, carry: v & 0x80 != 0 }
}

/// Moves `v` one bit to the right through the carry. With `carry_in` clear
/// this is a plain shift.
pub fn rotate_right(v: u8, carry_in: bool) -> (r: Shifted)
    ensures
        r == rotated_right(v, carry_in),
{
    let high: u8 = if carry_in {
        0x80
    } else {
        0
    };
    proof {
        assert(((v >> 1) | high) == v / 2 + high && (v & 0x01 != 0) == (v % 2 == 1))
            by (bit_vector)
            requires
                high == 0 || high == 0x80,
        ;
    }
    Shifted { value: (v >> 1) | high, carry: v & 0x01 != 0 }
}

/// Compares `register` with `v`.
pub fn compare(register: u8, v: u8) -> (r: Shifted)
    ensures
        r == compared(register, v),
{
    Shifted { value: register.wrapping_sub(v), carry: register >= v }
}

/// `v + 1`, wrapping from 255 to 0.
pub fn increment(v: u8) -> (r: u8)
    ensures
        r == wrap8(v + 1),
{
    v.wrapping_add(1)
}

/// `v - 1`, wrapping from 0 to 255.
pub fn decrement(v: u8) -> (r: u8)
    ensures
        r == wrap8(v - 1),
{
    v.wrapping_sub(1)
}

/// The word `base + index`, wrapping at sixteen bits.
pub fn offset_word(base: u16, index: u8) -> (r: u16)
    ensures
        r == wrap16(base + index),
{
    base.wrapping_add(index as u16)
}

/// The byte `base + index`, wrapping at eight bits.
pub fn offset_byte(base: u8, index: u8) -> (r: u8)
    ensures
        r == wrap8(base + index),
{
    base.wrapping_add(index)
}

/// The word with low byte `lo` and high byte `hi`.
pub fn make_word(lo: u8, hi: u8) -> (r: u16)
    ensures
        r == word_of(lo, hi),
{
    proof {
        assert((((hi as u16) << 8) | (lo as u16)) == lo + 256 * hi) by (bit_vector);
    }
    ((hi as u16) << 8) | (lo as u16)
}

/// The low byte of `w`.
pub fn low_byte(w: u16) -> (r: u8)
    ensures
        r == w % 256,
{
    proof {
        assert(w & 0xFF == w % 256) by (bit_vector);
    }
    (w & 0xFF) as u8
}

/// The high byte of `w`.
pub fn high_byte(w: u16) -> (r: u8)
    ensures
        r == w / 256,
{
    proof {
        assert(w >> 8 == w / 256) by (bit_vector);
    }
    (w >> 8) as u8
}

/// The address `offset` bytes from `from`, the offset read as a signed byte;
/// the sum wraps at sixteen bits.
pub fn displace(from: u16, offset: u8) -> (r: u16)
    ensures
        r == displaced(from, offset),
{
    if offset < 128 {
        from.wrapping_add(offset as u16)
    } else {
        from.wrapping_sub(256 - offset as u16)
    }
}

/// The address that follows `p` inside the page of `p`.
pub fn step_in_page(p: u16) -> (r: u16)
    ensures
        r == next_in_page(p),
{
    let q = p.wrapping_add(1);
    proof {
        assert(((p & 0xFF00) | (q & 0x00FF)) == (p / 256) * 256 + q % 256) by (bit_vector);
    }
    (p & 0xFF00) | (q & 0x00FF)
}

} // verus!
