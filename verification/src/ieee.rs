//! Floating-point numbers as bit patterns.
//!
//! A number of the formats read here is never computed with; it is carried
//! from the input to the output. It is held as the integer whose bits are those
//! of its IEEE 754 encoding, which is also how it lies in a mission file.

use vstd::arithmetic::power2::{lemma2_to64, lemma_pow2_pos, lemma_pow2_unfold, pow2};
use vstd::prelude::*;

verus! {

/// The bits of a single-precision number: sign, 8 bits of exponent, 23 bits
/// of fraction.
pub type Binary32 = u32;

/// The bits of a double-precision number: sign, 11 bits of exponent, 52 bits
/// of fraction.
pub type Binary64 = u64;

/// Single-precision `-1`, the only encoding that compares equal to it.
pub const MINUS_ONE: Binary32 = 0xBF80_0000;

/// Two to the power of 52: the hidden bit of a double-precision significand.
pub const HIDDEN_BIT: u64 = 0x10_0000_0000_0000;

/// The sign bit of a double-precision number.
pub const SIGN_BIT: u64 = 0x8000_0000_0000_0000;

/// The exponent of a double-precision significand that counts units.
pub const UNIT_EXPONENT: u64 = 1075;

/// Exponent and fraction of the double-precision number `m * 2^(e - 1075)`,
/// for `m > 0`: the significand is doubled, and the exponent lowered, until
/// the hidden bit is set.
pub open spec fn binary64_magnitude(m: nat, e: nat) -> nat
    decreases e,
{
    if m == 0 || e == 0 {
        0
    } else if m >= HIDDEN_BIT {
        (e * HIDDEN_BIT + (m - HIDDEN_BIT)) as nat
    } else {
        binary64_magnitude(2 * m, (e - 1) as nat)
    }
}

/// The double-precision number that equals the integer `value`.
pub open spec fn binary64_from_int(value: int) -> Binary64 {
    if value >= 0 {
        binary64_magnitude(value as nat, UNIT_EXPONENT as nat) as u64
    } else {
        (SIGN_BIT + binary64_magnitude((-value) as nat, UNIT_EXPONENT as nat)) as u64
    }
}

/// Whether `bits` encodes a normal number that equals `value`: the sign bit
/// is its sign, and the significand, scaled by the exponent, is its
/// magnitude.
pub open spec fn binary64_equals_int(bits: Binary64, value: int) -> bool {
    let sign = bits / SIGN_BIT;
    let exponent = (bits / HIDDEN_BIT) % 2048;
    let fraction = bits % HIDDEN_BIT;
    let magnitude = if value < 0 {
        -value
    } else {
        value
    };
    &&& (sign == 1) == (value < 0)
    &&& 1 <= exponent <= UNIT_EXPONENT
    &&& HIDDEN_BIT + fraction == magnitude * pow2((UNIT_EXPONENT - exponent) as nat)
}

/// Doubling the significand is made up for by lowering the exponent.
proof fn lemma_doubled(m: nat, j: nat)
    ensures
        (2 * m) * pow2(j) == m * pow2(j + 1),
{
    lemma_pow2_unfold(j + 1);
    assert((2 * m) * pow2(j) == m * (2 * pow2(j))) by (nonlinear_arith);
}

/// Normalising keeps the value: the bits that come out have the hidden bit
/// in the significand and an exponent that makes up for the doublings.
proof fn lemma_magnitude(m: nat, e: nat)
    requires
        0 < m < 2 * HIDDEN_BIT,
        1 <= e <= UNIT_EXPONENT,
        m * pow2((e - 1) as nat) >= HIDDEN_BIT,
    ensures
        ({
            let bits = binary64_magnitude(m, e);
            let exponent = bits / HIDDEN_BIT as nat;
            let fraction = bits % HIDDEN_BIT as nat;
            &&& bits == exponent * HIDDEN_BIT + fraction
            &&& 1 <= exponent <= e
            &&& HIDDEN_BIT + fraction == m * pow2((e - exponent) as nat)
        }),
    decreases e,
{
    lemma2_to64();
    if m >= HIDDEN_BIT {
        assert(m * pow2(0) == m) by (nonlinear_arith)
            requires
                pow2(0) == 1,
        ;
    } else {
        if e == 1 {
            assert(m * pow2(0) == m) by (nonlinear_arith)
                requires
                    pow2(0) == 1,
            ;
        }
        lemma_doubled(m, (e - 2) as nat);
        lemma_magnitude(2 * m, (e - 1) as nat);
        let exponent = binary64_magnitude(m, e) / HIDDEN_BIT as nat;
        lemma_doubled(m, (e - 1 - exponent) as nat);
    }
}

/// The number made from an integer of 32 bits is zero for zero, and else a
/// normal number that equals it.
pub proof fn lemma_binary64_from_int(value: int)
    requires
        -0x8000_0000 <= value < 0x8000_0000,
    ensures
        value == 0 ==> binary64_from_int(value) == 0,
        value != 0 ==> binary64_equals_int(binary64_from_int(value), value),
{
    if value != 0 {
        let m = if value < 0 {
            (-value) as nat
        } else {
            value as nat
        };
        lemma_pow2_pos((UNIT_EXPONENT - 1) as nat);
        assert(m * pow2((UNIT_EXPONENT - 1) as nat) >= m) by (nonlinear_arith)
            requires
                pow2((UNIT_EXPONENT - 1) as nat) >= 1,
                m > 0,
        ;
        lemma_enough_exponent();
        assert(m * pow2((UNIT_EXPONENT - 1) as nat) >= HIDDEN_BIT) by (nonlinear_arith)
            requires
                pow2((UNIT_EXPONENT - 1) as nat) >= HIDDEN_BIT,
                m >= 1,
        ;
        lemma_magnitude(m, UNIT_EXPONENT as nat);
    }
}

/// The exponent that counts units leaves room for all the doublings a
/// significand of one needs.
proof fn lemma_enough_exponent()
    ensures
        pow2((UNIT_EXPONENT - 1) as nat) >= HIDDEN_BIT,
{
    lemma2_to64();
    vstd::arithmetic::power2::lemma2_to64_rest();
    if UNIT_EXPONENT - 1 > 52 {
        vstd::arithmetic::power2::lemma_pow2_strictly_increases(52, (UNIT_EXPONENT - 1) as nat);
    }
}

/// The double-precision number that equals `value`.
pub fn binary64_from_i32(value: i32) -> (bits: Binary64)
    ensures
        bits == binary64_from_int(value as int),
{
    if value == 0 {
        return 0;
    }
    let negative = value < 0;
    let start: u64 = if negative {
        (0 - value as i64) as u64
    } else {
        value as u64
    };
    let mut m: u64 = start;
    let mut e: u64 = UNIT_EXPONENT;
    proof {
        lemma_enough_exponent();
        assert(m * pow2((e - 1) as nat) >= HIDDEN_BIT) by (nonlinear_arith)
            requires
                pow2((e - 1) as nat) >= HIDDEN_BIT,
                m >= 1,
        ;
    }
    while m < HIDDEN_BIT
        invariant
            0 < m < 2 * HIDDEN_BIT,
            1 <= e <= UNIT_EXPONENT,
            m * pow2((e - 1) as nat) >= HIDDEN_BIT,
            binary64_magnitude(m as nat, e as nat) == binary64_magnitude(
                start as nat,
                UNIT_EXPONENT as nat,
            ),
        decreases e,
    {
        proof {
            lemma2_to64();
            if e == 1 {
                assert(m * pow2(0) == m) by (nonlinear_arith)
                    requires
                        pow2(0) == 1,
                ;
            }
            lemma_doubled(m as nat, (e - 2) as nat);
        }
        m = 2 * m;
        e = e - 1;
    }
    let magnitude: u64 = e * HIDDEN_BIT + (m - HIDDEN_BIT);
    if negative {
        SIGN_BIT + magnitude
    } else {
        magnitude
    }
}

/// Whether a single-precision number is no number.
pub open spec fn binary32_is_nan(bits: Binary32) -> bool {
    bits % 0x8000_0000 > 0x7F80_0000
}

/// Whether the sign bit of a single-precision number is set.
pub open spec fn binary32_is_negative(bits: Binary32) -> bool {
    bits >= 0x8000_0000
}

/// The whole part of the magnitude of a single-precision number, as far as
/// it is below `2^16`; for every greater magnitude, `2^16`.
pub open spec fn binary32_whole(bits: Binary32) -> nat {
    let exponent = (bits / 0x80_0000) % 256;
    let significand = 0x80_0000 + bits % 0x80_0000;
    if exponent < 127 {
        0
    } else if exponent >= 143 {
        0x1_0000
    } else {
        significand as nat / pow2((150 - exponent) as nat)
    }
}

/// The number of 16 bits without sign that is nearest to the whole part of
/// a single-precision number; 0 for what is no number.
pub open spec fn binary32_as_u16(bits: Binary32) -> u16 {
    if binary32_is_nan(bits) || binary32_is_negative(bits) {
        0
    } else if binary32_whole(bits) > u16::MAX {
        u16::MAX
    } else {
        binary32_whole(bits) as u16
    }
}

/// The number of 8 bits without sign that is nearest to the whole part of a
/// single-precision number; 0 for what is no number.
pub open spec fn binary32_as_u8(bits: Binary32) -> u8 {
    if binary32_is_nan(bits) || binary32_is_negative(bits) {
        0
    } else if binary32_whole(bits) > u8::MAX {
        u8::MAX
    } else {
        binary32_whole(bits) as u8
    }
}

/// The number of 16 bits with sign that is nearest to the whole part of a
/// single-precision number; 0 for what is no number.
pub open spec fn binary32_as_i16(bits: Binary32) -> i16 {
    if binary32_is_nan(bits) {
        0
    } else if binary32_is_negative(bits) {
        if binary32_whole(bits) > 0x8000 {
            i16::MIN
        } else {
            (-(binary32_whole(bits) as int)) as i16
        }
    } else if binary32_whole(bits) > i16::MAX {
        i16::MAX
    } else {
        binary32_whole(bits) as i16
    }
}

/// Two to the power of `k`.
fn power_of_two(k: u32) -> (d: u64)
    requires
        k <= 52,
    ensures
        d == pow2(k as nat),
        1 <= d <= HIDDEN_BIT,
{
    let mut d: u64 = 1;
    let mut i: u32 = 0;
    proof {
        lemma2_to64();
        vstd::arithmetic::power2::lemma2_to64_rest();
    }
    while i < k
        invariant
            i <= k <= 52,
            d == pow2(i as nat),
            d * pow2((52 - i) as nat) == HIDDEN_BIT,
        decreases k - i,
    {
        proof {
            lemma_pow2_unfold((i + 1) as nat);
            lemma_pow2_unfold((52 - i) as nat);
            lemma_pow2_pos((52 - i - 1) as nat);
            lemma_doubled(d as nat, (52 - i - 1) as nat);
            assert(d * pow2((52 - i) as nat) >= 2 * d) by (nonlinear_arith)
                requires
                    pow2((52 - i) as nat) == 2 * pow2((52 - i - 1) as nat),
                    pow2((52 - i - 1) as nat) >= 1,
            ;
        }
        d = 2 * d;
        i = i + 1;
    }
    proof {
        lemma_pow2_pos((52 - k) as nat);
        assert(d <= HIDDEN_BIT) by (nonlinear_arith)
            requires
                d * pow2((52 - k) as nat) == HIDDEN_BIT,
                pow2((52 - k) as nat) >= 1,
        ;
    }
    d
}

/// The whole part of the magnitude of a single-precision number, as far as
/// it is below `2^16`; for every greater magnitude, `2^16`.
pub fn binary32_whole_part(bits: Binary32) -> (whole: u32)
    ensures
        whole == binary32_whole(bits),
        whole <= 0x1_0000,
{
    let exponent: u32 = (bits / 0x80_0000) % 256;
    let significand: u32 = 0x80_0000 + bits % 0x80_0000;
    if exponent < 127 {
        0
    } else if exponent >= 143 {
        0x1_0000
    } else {
        let divisor = power_of_two(150 - exponent);
        proof {
            lemma2_to64();
            if 150 - exponent > 8 {
                vstd::arithmetic::power2::lemma_pow2_strictly_increases(
                    8,
                    (150 - exponent) as nat,
                );
            }
            assert(significand as nat / (divisor as nat) <= 0x1_0000) by (nonlinear_arith)
                requires
                    significand < 0x100_0000,
                    divisor >= 256,
            ;
        }
        (significand as u64 / divisor) as u32
    }
}

/// A single-precision number as a number of 16 bits without sign, the way
/// a cast rounds and saturates.
pub fn binary32_to_u16(bits: Binary32) -> (n: u16)
    ensures
        n == binary32_as_u16(bits),
{
    if bits % 0x8000_0000 > 0x7F80_0000 || bits >= 0x8000_0000 {
        return 0;
    }
    let whole = binary32_whole_part(bits);
    if whole > 0xFFFF {
        0xFFFF
    } else {
        whole as u16
    }
}

/// A single-precision number as a number of 8 bits without sign, the way a
/// cast rounds and saturates.
pub fn binary32_to_u8(bits: Binary32) -> (n: u8)
    ensures
        n == binary32_as_u8(bits),
{
    if bits % 0x8000_0000 > 0x7F80_0000 || bits >= 0x8000_0000 {
        return 0;
    }
    let whole = binary32_whole_part(bits);
    if whole > 0xFF {
        0xFF
    } else {
        whole as u8
    }
}

/// A single-precision number as a number of 16 bits with sign, the way a
/// cast rounds and saturates.
pub fn binary32_to_i16(bits: Binary32) -> (n: i16)
    ensures
        n == binary32_as_i16(bits),
{
    if bits % 0x8000_0000 > 0x7F80_0000 {
        return 0;
    }
    let whole = binary32_whole_part(bits);
    if bits >= 0x8000_0000 {
        if whole > 0x8000 {
            i16::MIN
        } else {
            (0 - whole as i32) as i16
        }
    } else if whole > 0x7FFF {
        i16::MAX
    } else {
        whole as i16
    }
}

/// Double-precision `1`.
pub const ONE_64: Binary64 = 0x3FF0_0000_0000_0000;

/// Double-precision `65535`, the greatest number of 16 bits.
pub const U16_MAX_64: Binary64 = 0x40EF_FFE0_0000_0000;

/// Double-precision infinity; every magnitude above it is no number.
pub const INFINITY_64: Binary64 = 0x7FF0_0000_0000_0000;

/// The whole part of a double-precision number from 1 to below `2^16`.
pub open spec fn binary64_whole(bits: Binary64) -> nat {
    let exponent = (bits / HIDDEN_BIT) % 2048;
    let significand = HIDDEN_BIT + bits % HIDDEN_BIT;
    significand as nat / pow2((UNIT_EXPONENT - exponent) as nat)
}

/// The whole part of a double-precision number from 1 to 65535.
pub fn binary64_whole_part(bits: Binary64) -> (whole: u16)
    requires
        ONE_64 <= bits <= U16_MAX_64,
    ensures
        whole == binary64_whole(bits),
        whole >= 1,
{
    let exponent: u64 = (bits / HIDDEN_BIT) % 2048;
    let significand: u64 = HIDDEN_BIT + bits % HIDDEN_BIT;
    assert(1023 <= exponent <= 1038);
    let divisor = power_of_two((UNIT_EXPONENT - exponent) as u32);
    proof {
        lemma2_to64();
        vstd::arithmetic::power2::lemma2_to64_rest();
        let k = (UNIT_EXPONENT - exponent) as nat;
        if k > 37 {
            vstd::arithmetic::power2::lemma_pow2_strictly_increases(37, k);
        }
        assert(significand as nat / (divisor as nat) <= 0xFFFF) by (nonlinear_arith)
            requires
                significand < 2 * HIDDEN_BIT,
                divisor >= 0x20_0000_0000,
        ;
        assert(significand as nat / (divisor as nat) >= 1) by (nonlinear_arith)
            requires
                significand >= HIDDEN_BIT,
                1 <= divisor <= HIDDEN_BIT,
        ;
    }
    (significand / divisor) as u16
}

} // verus!
