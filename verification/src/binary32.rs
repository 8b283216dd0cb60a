use vstd::arithmetic::div_mod::{lemma_basic_div, lemma_div_is_ordered_by_denominator};
use vstd::arithmetic::mul::lemma_mul_inequality;
use vstd::arithmetic::power2::{lemma2_to64, lemma_pow2_pos, lemma_pow2_strictly_increases, pow2};
use vstd::bits::lemma_u32_shr_is_div;
use vstd::prelude::*;

verus! {

/// Whether the sign bit of the single-precision number with these bits is
/// set.
pub open spec fn is_negative(bits: u32) -> bool {
    bits >= 0x8000_0000
}

/// The exponent field of the single-precision number with these bits.
pub open spec fn exponent(bits: u32) -> nat {
    (bits as nat / 0x80_0000) % 0x100
}

/// The fraction field of the single-precision number with these bits.
pub open spec fn fraction(bits: u32) -> nat {
    bits as nat % 0x80_0000
}

/// Whether the bits are those of a NaN.
pub open spec fn is_nan(bits: u32) -> bool {
    exponent(bits) == 0xFF && fraction(bits) != 0
}

/// Whether the bits are those of an infinity.
pub open spec fn is_infinite(bits: u32) -> bool {
    exponent(bits) == 0xFF && fraction(bits) == 0
}

/// The whole part of the magnitude of the finite single-precision number
/// with these bits. The magnitude is the significand times two to the power
/// of the exponent less 150, where a number with exponent field zero has no
/// leading one bit in its significand and counts as of exponent one.
pub open spec fn magnitude_floor(bits: u32) -> nat
    recommends
        exponent(bits) < 0xFF,
{
    let e = exponent(bits);
    let significand = if e == 0 {
        fraction(bits)
    } else {
        0x80_0000 + fraction(bits)
    };
    let power = if e == 0 {
        1
    } else {
        e
    };
    if power >= 150 {
        significand * pow2((power - 150) as nat)
    } else {
        significand / pow2((150 - power) as nat)
    }
}

/// The whole part of the number with these bits, limited to `0..=max`: zero
/// for a NaN and for anything negative, `max` for anything from `max` on,
/// positive infinity too.
pub open spec fn saturating_floor(bits: u32, max: nat) -> nat {
    if is_nan(bits) || is_negative(bits) {
        0
    } else if is_infinite(bits) || magnitude_floor(bits) >= max {
        max
    } else {
        magnitude_floor(bits)
    }
}

/// A finite number with an exponent field below 127 is less than one.
proof fn lemma_small_exponent(bits: u32)
    requires
        exponent(bits) < 127,
    ensures
        magnitude_floor(bits) == 0,
{
    let e = exponent(bits);
    let significand = if e == 0 {
        fraction(bits)
    } else {
        0x80_0000 + fraction(bits)
    };
    let down = if e == 0 {
        149nat
    } else {
        (150 - e) as nat
    };
    lemma2_to64();
    if down > 24 {
        lemma_pow2_strictly_increases(24, down);
    }
    lemma_basic_div(significand as int, pow2(down) as int);
}

/// A finite number with an exponent field of 135 or more is at least 256.
proof fn lemma_large_exponent(bits: u32)
    requires
        135 <= exponent(bits) < 0xFF,
    ensures
        magnitude_floor(bits) >= 256,
{
    let e = exponent(bits);
    let significand = 0x80_0000 + fraction(bits);
    lemma2_to64();
    if e >= 150 {
        let up = (e - 150) as nat;
        lemma_pow2_pos(up);
        lemma_mul_inequality(1, pow2(up) as int, significand as int);
    } else {
        let down = (150 - e) as nat;
        lemma_pow2_pos(down);
        if down < 15 {
            lemma_pow2_strictly_increases(down, 15);
        }
        lemma_div_is_ordered_by_denominator(significand as int, pow2(down) as int, 0x8000);
    }
}

/// The whole part of the single-precision number with the bits `bits`,
/// limited to a byte: zero for a NaN and for anything negative, 255 for
/// anything from 255 on.
pub fn saturating_byte(bits: u32) -> (r: u8)
    ensures
        r == saturating_floor(bits, u8::MAX as nat),
{
    let e: u32 = (bits >> 23) & 0xFF;
    let f: u32 = bits & 0x7F_FFFF;
    assert(e == (bits / 0x80_0000) % 0x100 && f == bits % 0x80_0000) by (bit_vector)
        requires
            e == (bits >> 23) & 0xFF,
            f == bits & 0x7F_FFFF,
    ;
    if bits >= 0x8000_0000 || (e == 0xFF && f != 0) {
        0
    } else if e < 127 {
        proof {
            lemma_small_exponent(bits);
        }
        0
    } else if e >= 135 {
        proof {
            if e < 0xFF {
                lemma_large_exponent(bits);
            }
        }
        u8::MAX
    } else {
        let significand: u32 = 0x80_0000 + f;
        let down: u32 = 150 - e;
        let whole: u32 = significand >> down;
        proof {
            lemma_u32_shr_is_div(significand, down);
        }
        if whole >= 255 {
            u8::MAX
        } else {
            whole as u8
        }
    }
}

} // verus!
