//! Whole numbers in the single precision format of IEEE 754.

use vstd::arithmetic::power2::{lemma2_to64, lemma_pow2_adds, lemma_pow2_strictly_increases, pow2};
use vstd::prelude::*;

verus! {

/// The place of the highest bit of a number, which is not zero.
pub open spec fn high_bit(value: nat) -> nat
    decreases value,
{
    if value <= 1 {
        0
    } else {
        high_bit(value / 2) + 1
    }
}

/// The bits of a whole number below two to the 24th in single precision: the sign, the exponent
/// above 127, and what follows the highest bit, moved up to the 23 bits of the fraction.
pub open spec fn single_of(value: int) -> u32 {
    if value == 0 {
        0
    } else {
        let size: nat = if value < 0 {
            (-value) as nat
        } else {
            value as nat
        };
        let exponent = high_bit(size);
        let fraction = (size - pow2(exponent)) * pow2((23 - exponent) as nat);
        let sign: int = if value < 0 {
            0x8000_0000
        } else {
            0
        };
        (sign + (127 + exponent) * 0x80_0000 + fraction) as u32
    }
}

/// The highest bit of a number is the greatest power of two that the number reaches.
proof fn lemma_high_bit(value: nat)
    requires
        value > 0,
    ensures
        pow2(high_bit(value)) <= value < pow2(high_bit(value) + 1),
    decreases value,
{
    lemma2_to64();
    if value > 1 {
        lemma_high_bit(value / 2);
        lemma_pow2_adds(high_bit(value / 2), 1);
        lemma_pow2_adds(high_bit(value / 2) + 1, 1);
    }
}

/// The highest bit is where a power of two says it is.
proof fn lemma_high_bit_unique(value: nat, exponent: nat)
    requires
        pow2(exponent) <= value < pow2(exponent + 1),
    ensures
        high_bit(value) == exponent,
{
    lemma2_to64();
    if value == 0 {
        vstd::arithmetic::power2::lemma_pow2_pos(exponent);
    } else {
        lemma_high_bit(value);
        let found = high_bit(value);
        if found < exponent {
            if found + 1 < exponent {
                lemma_pow2_strictly_increases(found + 1, exponent);
            }
        } else if exponent < found {
            if exponent + 1 < found {
                lemma_pow2_strictly_increases(exponent + 1, found);
            }
        }
    }
}

/// Finds the bits of a whole number in single precision.
pub fn single_bits(value: i32) -> (bits: u32)
    requires
        -0x1000000 < value < 0x1000000,
    ensures
        bits == single_of(value as int),
{
    if value == 0 {
        return 0;
    }
    let size: u32 = if value < 0 {
        (-value) as u32
    } else {
        value as u32
    };
    let mut exponent: u32 = 23;
    let mut power: u32 = 0x80_0000;
    let mut scale: u32 = 1;
    proof {
        lemma2_to64();
    }
    while power > size
        invariant
            0 < size < 0x1000000,
            exponent <= 23,
            power == pow2(exponent as nat),
            scale == pow2((23 - exponent) as nat),
            size < pow2((exponent + 1) as nat),
            scale * power == 0x80_0000,
        decreases exponent,
    {
        proof {
            lemma2_to64();
            if exponent == 0 {
                assert(false);
            }
            lemma_pow2_adds((exponent - 1) as nat, 1);
            lemma_pow2_adds((23 - exponent) as nat, 1);
            assert(scale * 2 * (power / 2) == scale * power) by (nonlinear_arith)
                requires
                    power % 2 == 0,
            ;
            assert(scale * 2 <= 0x80_0000) by (nonlinear_arith)
                requires
                    scale * 2 * (power / 2) == 0x80_0000,
                    power / 2 >= 1,
            ;
        }
        exponent = exponent - 1;
        power = power / 2;
        scale = scale * 2;
    }
    proof {
        lemma_high_bit_unique(size as nat, exponent as nat);
        lemma_pow2_adds(exponent as nat, 1);
        lemma2_to64();
        assert((size - power) * scale < 0x80_0000) by (nonlinear_arith)
            requires
                power <= size < 2 * power,
                scale * power == 0x80_0000,
                scale > 0,
        ;
        assert((size - power) * scale >= 0) by (nonlinear_arith)
            requires
                power <= size,
        ;
    }
    let fraction: u32 = (size - power) * scale;
    let sign: u32 = if value < 0 {
        0x8000_0000
    } else {
        0
    };
    sign + (127 + exponent) * 0x80_0000 + fraction
}

} // verus!
