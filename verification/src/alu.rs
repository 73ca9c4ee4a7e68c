//! Arithmetic on bytes and addresses.
//!
//! The processor computes in eight bits and addresses in sixteen. Each
//! operation here is stated over the integers, with the wrap-around written
//! out, and computed the way the hardware does it, with shifts and masks.

use vstd::prelude::*;
use crate::status::bit;

verus! {

/// An integer reduced to a byte.
pub open spec fn wrap8(n: int) -> u8 {
    (n % 256) as u8
}

/// An integer reduced to an address.
pub open spec fn wrap16(n: int) -> u16 {
    (n % 65536) as u16
}

/// A byte read as a two's-complement number, -128 to 127.
pub open spec fn signed(value: u8) -> int {
    if value >= 0x80 {
        value - 256
    } else {
        value as int
    }
}

/// The address made of a low and a high byte.
pub open spec fn word(lo: u8, hi: u8) -> u16 {
    (lo + 256 * hi) as u16
}

/// The number of the 256-byte page that an address lies in.
pub open spec fn page(addr: u16) -> int {
    addr as int / 256
}

/// Where a branch lands: `offset`, read as signed, from `next`.
pub open spec fn branch_target(next: u16, offset: u8) -> u16 {
    wrap16(next + signed(offset))
}

/// Result of an addition or subtraction with carry.
#[derive(Clone, Copy, Debug, PartialEq, Eq, Structural)]
pub struct Sum {
    pub value: u8,
    pub carry: bool,
    pub overflow: bool,
}

/// Result of a shift or rotate: the new byte and the bit that fell out.
#[derive(Clone, Copy, Debug, PartialEq, Eq, Structural)]
pub struct Shifted {
    pub value: u8,
    pub carry: bool,
}

/// The flags that a comparison or a bit test works out.
#[derive(Clone, Copy, Debug, PartialEq, Eq, Structural)]
pub struct Tested {
    pub carry: bool,
    pub zero: bool,
    pub overflow: bool,
    pub negative: bool,
}

/// Whether the sign of a sum is wrong: both operands have one sign and the
/// result has the other.
pub open spec fn sign_lost(a: u8, m: u8, result: u8) -> bool {
    (a >= 0x80) == (m >= 0x80) && (result >= 0x80) != (a >= 0x80)
}

/// `a + m + carry` in eight bits. The carry out is the ninth bit of the sum.
pub open spec fn adc(a: u8, m: u8, carry: bool) -> Sum {
    let sum = a + m + bit(carry);
    Sum { value: wrap8(sum), carry: sum >= 256, overflow: sign_lost(a, m, wrap8(sum)) }
}

/// `a - m - (1 - carry)` in eight bits. The carry in is a borrow inverted,
/// and so is the carry out: it is set when the subtraction did not borrow.
/// The sign is wrong when the operands differ in sign and the result has not
/// the sign of `a`.
pub open spec fn sbc(a: u8, m: u8, carry: bool) -> Sum {
    let diff = a - m - (1 - bit(carry));
    Sum {
        value: wrap8(diff),
        carry: diff >= 0,
        overflow: (a >= 0x80) != (m >= 0x80) && (wrap8(diff) >= 0x80) != (a >= 0x80),
    }
}

/// `reg` against `m`, as unsigned bytes: carry when `reg` is not below `m`,
/// zero when they are equal, negative from bit 7 of the difference.
pub open spec fn compare(reg: u8, m: u8) -> Tested {
    Tested { carry: reg >= m, zero: reg == m, overflow: false, negative: wrap8(reg - m) >= 0x80 }
}

/// The bits of `m` tested against the mask `a`: zero when they share no
/// bit, overflow and negative from bits 6 and 7 of `m` itself.
pub open spec fn bit_test(a: u8, m: u8) -> Tested {
    Tested { carry: false, zero: a & m == 0, overflow: (m / 64) % 2 == 1, negative: m >= 0x80 }
}

/// One place to the left; bit 7 falls out, 0 comes in.
pub open spec fn asl(value: u8) -> Shifted {
    Shifted { value: wrap8(2 * value), carry: value >= 0x80 }
}

/// One place to the right; bit 0 falls out, 0 comes in.
pub open spec fn lsr(value: u8) -> Shifted {
    Shifted { value: value / 2, carry: value % 2 == 1 }
}

/// One place to the left; bit 7 falls out, the old carry comes in.
pub open spec fn rol(value: u8, carry: bool) -> Shifted {
    Shifted { value: wrap8(2 * value + bit(carry)), carry: value >= 0x80 }
}

/// One place to the right; bit 0 falls out, the old carry comes in.
pub open spec fn ror(value: u8, carry: bool) -> Shifted {
    Shifted { value: (value / 2 + 128 * bit(carry)) as u8, carry: value % 2 == 1 }
}

pub fn make_word(lo: u8, hi: u8) -> (w: u16)
    ensures
        w == word(lo, hi),
{
    let l = lo as u16;
    let h = hi as u16;
    assert(l | (h << 8) == l + 256 * h) by (bit_vector)
        requires
            l < 256,
            h < 256,
    ;
    l | (h << 8)
}

pub fn low_byte(w: u16) -> (b: u8)
    ensures
        b == w % 256,
{
    assert(w & 0xFF == w % 256) by (bit_vector);
    (w & 0xFF) as u8
}

pub fn high_byte(w: u16) -> (b: u8)
    ensures
        b == w / 256,
{
    assert(w >> 8 == w / 256) by (bit_vector);
    (w >> 8) as u8
}

/// Whether two addresses lie in different pages.
pub fn page_crossed(old_addr: u16, new_addr: u16) -> (crossed: bool)
    ensures
        crossed == (page(old_addr) != page(new_addr)),
{
    assert(old_addr >> 8 == old_addr / 256) by (bit_vector);
    assert(new_addr >> 8 == new_addr / 256) by (bit_vector);
    old_addr >> 8 != new_addr >> 8
}

/// One more, with `0xFF` followed by `0x00`.
pub fn increment(value: u8) -> (r: u8)
    ensures
        r == wrap8(value + 1),
{
    value.wrapping_add(1)
}

/// One less, with `0x00` followed by `0xFF`.
pub fn decrement(value: u8) -> (r: u8)
    ensures
        r == wrap8(value - 1),
{
    value.wrapping_sub(1)
}

/// Adds a signed offset to an address.
pub fn offset_address(next: u16, offset: u8) -> (target: u16)
    ensures
        target == branch_target(next, offset),
{
    if offset < 0x80 {
        next.wrapping_add(offset as u16)
    } else {
        next.wrapping_sub(256 - offset as u16)
    }
}

/// Whether `x + y + carry` comes out with the wrong sign.
pub fn signed_overflow_add(x: u8, y: u8, carry: bool) -> (overflow: bool)
    ensures
        overflow == adc(x, y, carry).overflow,
{
    let sum: u16 = x as u16 + y as u16 + if carry { 1 } else { 0 };
    let result = low_byte(sum);
    assert(((x ^ result) & (y ^ result) & 0x80 != 0) == ((x >= 0x80) == (y >= 0x80) && (result
        >= 0x80) != (x >= 0x80))) by (bit_vector);
    (x ^ result) & (y ^ result) & 0x80 != 0
}

/// Whether `x - y - (1 - carry)` comes out with the wrong sign.
pub fn signed_overflow_sub(x: u8, y: u8, carry: bool) -> (overflow: bool)
    ensures
        overflow == sbc(x, y, carry).overflow,
{
    let result = x.wrapping_sub(y).wrapping_sub(if carry { 0 } else { 1 });
    assert(((x ^ y) & (x ^ result) & 0x80 != 0) == ((x >= 0x80) != (y >= 0x80) && (result >= 0x80)
        != (x >= 0x80))) by (bit_vector);
    (x ^ y) & (x ^ result) & 0x80 != 0
}

pub fn add_with_carry(a: u8, m: u8, carry: bool) -> (sum: Sum)
    ensures
        sum == adc(a, m, carry),
{
    let total: u16 = a as u16 + m as u16 + if carry { 1 } else { 0 };
    Sum { value: low_byte(total), carry: total > 0xFF, overflow: signed_overflow_add(a, m, carry) }
}

pub fn subtract_with_carry(a: u8, m: u8, carry: bool) -> (sum: Sum)
    ensures
        sum == sbc(a, m, carry),
{
    let borrow: u16 = if carry { 0 } else { 1 };
    Sum {
        value: a.wrapping_sub(m).wrapping_sub(if carry { 0 } else { 1 }),
        carry: a as u16 >= m as u16 + borrow,
        overflow: signed_overflow_sub(a, m, carry),
    }
}

pub fn compare_bytes(reg: u8, m: u8) -> (t: Tested)
    ensures
        t == compare(reg, m),
{
    Tested {
        carry: reg >= m,
        zero: reg == m,
        overflow: false,
        negative: reg.wrapping_sub(m) >= 0x80,
    }
}

pub fn test_bits(a: u8, m: u8) -> (t: Tested)
    ensures
        t == bit_test(a, m),
{
    assert((m & 0x40 != 0) == ((m / 64) % 2 == 1)) by (bit_vector);
    assert((m & 0x80 != 0) == (m >= 0x80)) by (bit_vector);
    Tested { carry: false, zero: a & m == 0, overflow: m & 0x40 != 0, negative: m & 0x80 != 0 }
}

pub fn shift_left(value: u8) -> (s: Shifted)
    ensures
        s == asl(value),
{
    assert(value << 1 == (2 * value) % 256) by (bit_vector);
    assert((value & 0x80 != 0) == (value >= 0x80)) by (bit_vector);
    Shifted { value: value << 1, carry: value & 0x80 != 0 }
}

pub fn shift_right(value: u8) -> (s: Shifted)
    ensures
        s == lsr(value),
{
    assert(value >> 1 == value / 2) by (bit_vector);
    assert((value & 1 != 0) == (value % 2 == 1)) by (bit_vector);
    Shifted { value: value >> 1, carry: value & 1 != 0 }
}

pub fn rotate_left(value: u8, carry: bool) -> (s: Shifted)
    ensures
        s == rol(value, carry),
{
    let c: u8 = if carry { 1 } else { 0 };
    assert((value << 1) | c == (2 * value + c) % 256) by (bit_vector)
        requires
            c <= 1,
    ;
    assert((value & 0x80 != 0) == (value >= 0x80)) by (bit_vector);
    Shifted { value: (value << 1) | c, carry: value & 0x80 != 0 }
}

pub fn rotate_right(value: u8, carry: bool) -> (s: Shifted)
    ensures
        s == ror(value, carry),
{
    let c: u8 = if carry { 1 } else { 0 };
    assert((value >> 1) | (c << 7) == value / 2 + 128 * c) by (bit_vector)
        requires
            c <= 1,
    ;
    assert((value & 1 != 0) == (value % 2 == 1)) by (bit_vector);
    Shifted { value: (value >> 1) | (c << 7), carry: value & 1 != 0 }
}

/// The overflow flag of an addition says exactly that the signed sum does
/// not fit in a byte; when it fits, the result read as signed is that sum.
pub proof fn lemma_adc_overflow(a: u8, m: u8, carry: bool)
    ensures
        adc(a, m, carry).overflow <==> !(-128 <= signed(a) + signed(m) + bit(carry) <= 127),
        !adc(a, m, carry).overflow ==> signed(adc(a, m, carry).value) == signed(a) + signed(m)
            + bit(carry),
        adc(a, m, carry).value + 256 * bit(adc(a, m, carry).carry) == a + m + bit(carry),
{
}

/// The overflow flag of a subtraction says exactly that the signed
/// difference does not fit in a byte, and its carry that nothing was
/// borrowed.
pub proof fn lemma_sbc_overflow(a: u8, m: u8, carry: bool)
    ensures
        sbc(a, m, carry).overflow <==> !(-128 <= signed(a) - signed(m) - (1 - bit(carry)) <= 127),
        !sbc(a, m, carry).overflow ==> signed(sbc(a, m, carry).value) == signed(a) - signed(m) - (1
            - bit(carry)),
        sbc(a, m, carry).value - 256 * (1 - bit(sbc(a, m, carry).carry)) == a - m - (1 - bit(
            carry,
        )),
{
}

/// Subtracting is adding the one's complement.
pub proof fn lemma_sbc_is_adc_of_complement(a: u8, m: u8, carry: bool)
    ensures
        sbc(a, m, carry) == adc(a, (255 - m) as u8, carry),
{
}

/// A carry rotated out to the left and back in from the right, or the other
/// way round, gives the byte and the carry back.
pub proof fn lemma_rotate_round_trip(value: u8, carry: bool)
    ensures
        ror(rol(value, carry).value, rol(value, carry).carry) == (Shifted { value, carry }),
        rol(ror(value, carry).value, ror(value, carry).carry) == (Shifted { value, carry }),
{
}

} // verus!
