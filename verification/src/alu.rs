//! Eight-bit arithmetic with its flag: every operation wraps and says, beside
//! its result, what the flag register takes.

use vstd::prelude::*;

verus! {

/// `a + b` modulo 256, and whether the sum went beyond 255.
pub fn add_with_carry(a: u8, b: u8) -> (r: (u8, bool))
    ensures
        r.0 == (a + b) % 256,
        r.1 == (a + b > 255),
{
    (a.wrapping_add(b), a > 255 - b)
}

/// `a - b` modulo 256, and whether the subtraction did without a borrow.
pub fn sub_with_flag(a: u8, b: u8) -> (r: (u8, bool))
    ensures
        r.0 == (a - b) % 256,
        r.1 == (a >= b),
{
    (a.wrapping_sub(b), a >= b)
}

/// `a` shifted right by one bit, and whether the bit shifted out was set.
pub fn shift_right(a: u8) -> (r: (u8, bool))
    ensures
        r.0 == a / 2,
        r.1 == (a % 2 == 1),
{
    assert(a >> 1 == a / 2 && (a & 1 == 1) == (a % 2 == 1)) by (bit_vector);
    (a >> 1, a & 1 == 1)
}

/// `a` shifted left by one bit within eight bits, and whether the bit
/// shifted out was set.
pub fn shift_left(a: u8) -> (r: (u8, bool))
    ensures
        r.0 == (a * 2) % 256,
        r.1 == (a >= 128),
{
    assert(a << 1 == (a * 2) % 256 && (a & 0x80 != 0) == (a >= 128)) by (bit_vector);
    (a << 1, a & 0x80 != 0)
}

/// The hundreds, tens and ones of `a` in decimal.
pub fn decimal_digits(a: u8) -> (r: (u8, u8, u8))
    ensures
        r.0 == a / 100,
        r.1 == (a / 10) % 10,
        r.2 == a % 10,
        a == 100 * r.0 + 10 * r.1 + r.2,
{
    (a / 100, (a / 10) % 10, a % 10)
}

} // verus!
