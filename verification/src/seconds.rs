//! Seconds in double precision turned into whole milliseconds, computed on the
//! bits of the number.

use vstd::arithmetic::power2::pow2;
use vstd::prelude::*;

verus! {

/// Two to the power of 52: the weight of the implicit leading bit of a double.
pub const HIDDEN_BIT: u64 = 0x10_0000_0000_0000;

/// Two to the power of 53: one more than the largest significand of a double.
pub const SIGNIFICAND_END: u64 = 0x20_0000_0000_0000;

/// Two to the power of 63: the weight of the sign bit of a double.
pub const SIGN_BIT: u64 = 0x8000_0000_0000_0000;

/// The biased exponent of a double.
pub open spec fn exponent_field(bits: u64) -> int {
    (bits as int / HIDDEN_BIT as int) % 2048
}

/// The significand of a finite double, as a whole number.
pub open spec fn significand(bits: u64) -> int {
    let fraction = bits as int % HIDDEN_BIT as int;
    if exponent_field(bits) == 0 {
        fraction
    } else {
        fraction + HIDDEN_BIT
    }
}

/// The power of two by which the significand of a finite double is scaled.
pub open spec fn scale(bits: u64) -> int {
    if exponent_field(bits) == 0 {
        -1074
    } else {
        exponent_field(bits) - 1075
    }
}

/// By how many bits a whole number is longer than a significand.
pub open spec fn excess_bits(p: int) -> nat
    decreases p,
{
    if p < SIGNIFICAND_END {
        0
    } else {
        1 + excess_bits(p / 2)
    }
}

/// `p` divided by `d` and rounded to the nearest whole number, to the even one
/// where two are as near.
pub open spec fn nearest_even(p: int, d: int) -> int {
    let q = p / d;
    let r = p % d;
    if 2 * r > d || (2 * r == d && q % 2 == 1) {
        q + 1
    } else {
        q
    }
}

/// `m` times two to the power of `k`, rounded to the nearest whole number, up
/// where two are as near.
pub open spec fn nearest_up(m: int, k: int) -> int {
    if k >= 0 {
        m * pow2(k as nat)
    } else {
        (2 * m + pow2((-k) as nat)) / (2 * pow2((-k) as nat) as int)
    }
}

/// The milliseconds of a double that counts seconds. The product with one
/// thousand is rounded to a double, as the arithmetic of doubles has it, and
/// then to a whole number. Zero for what is negative or not finite, and the
/// largest number where the product does not fit.
pub open spec fn millis_of_seconds(bits: u64) -> u64 {
    if bits >= SIGN_BIT || exponent_field(bits) == 2047 {
        0
    } else {
        let product = significand(bits) * 1000;
        let excess = excess_bits(product);
        let millis = nearest_up(
            nearest_even(product, pow2(excess) as int),
            scale(bits) + excess,
        );
        if millis >= 0x1_0000_0000_0000_0000 {
            u64::MAX
        } else {
            millis as u64
        }
    }
}

/// `m` times two to the power of `k`, or the largest number where that does not fit.
fn scaled_up(m: u64, k: u64) -> (r: u64)
    ensures
        m * pow2(k as nat) >= 0x1_0000_0000_0000_0000 ==> r == u64::MAX,
        m * pow2(k as nat) < 0x1_0000_0000_0000_0000 ==> r == m * pow2(k as nat),
{
    let mut value: u64 = m;
    let mut i: u64 = 0;
    assert(pow2(0) == 1) by {
        vstd::arithmetic::power2::lemma2_to64();
    }
    if m == 0 {
        assert(0 * pow2(k as nat) == 0) by (nonlinear_arith);
        return 0;
    }
    while i < k
        invariant
            i <= k,
            m > 0,
            value == m * pow2(i as nat),
            value > 0,
        decreases k - i,
    {
        proof {
            vstd::arithmetic::power2::lemma_pow2_unfold((i + 1) as nat);
            assert(m * (2 * pow2(i as nat)) == 2 * (m * pow2(i as nat))) by (nonlinear_arith);
        }
        if value >= SIGN_BIT {
            proof {
                if i + 1 < k {
                    vstd::arithmetic::power2::lemma_pow2_strictly_increases(
                        (i + 1) as nat,
                        k as nat,
                    );
                }
                assert(m * pow2(k as nat) >= m * pow2((i + 1) as nat)) by (nonlinear_arith)
                    requires
                        pow2(k as nat) >= pow2((i + 1) as nat),
                ;
            }
            return u64::MAX;
        }
        value = value * 2;
        i += 1;
    }
    value
}

/// `m` divided by two to the power of `n`, rounded to the nearest whole number,
/// up where two are as near.
fn scaled_down(m: u64, n: u64) -> (r: u64)
    requires
        m <= SIGNIFICAND_END,
        n > 0,
    ensures
        r == nearest_up(m as int, -(n as int)),
{
    let ghost d = pow2(n as nat) as int;
    if n >= 55 {
        proof {
            vstd::arithmetic::power2::lemma2_to64_rest();
            if n > 55 {
                vstd::arithmetic::power2::lemma_pow2_strictly_increases(55, n as nat);
            }
            assert((2 * m + d) / (2 * d) == 0) by (nonlinear_arith)
                requires
                    0 <= 2 * m < d,
            ;
        }
        return 0;
    }
    let mut power: u64 = 1;
    let mut i: u64 = 0;
    assert(pow2(0) == 1) by {
        vstd::arithmetic::power2::lemma2_to64();
    }
    while i < n
        invariant
            i <= n < 55,
            power == pow2(i as nat),
            0 < power <= 0x80_0000_0000_0000,
        decreases n - i,
    {
        proof {
            vstd::arithmetic::power2::lemma_pow2_unfold((i + 1) as nat);
            vstd::arithmetic::power2::lemma2_to64_rest();
            if i + 1 < 55 {
                vstd::arithmetic::power2::lemma_pow2_strictly_increases((i + 1) as nat, 55);
            }
        }
        power = power * 2;
        i += 1;
    }
    (2 * m + power) / (2 * power)
}

/// Computes [`millis_of_seconds`].
pub fn seconds_to_millis(bits: u64) -> (millis: u64)
    ensures
        millis == millis_of_seconds(bits),
{
    let exponent: u64 = (bits / HIDDEN_BIT) % 2048;
    if bits >= SIGN_BIT || exponent == 2047 {
        return 0;
    }
    let fraction: u64 = bits % HIDDEN_BIT;
    let whole: u64 = if exponent == 0 {
        fraction
    } else {
        fraction + HIDDEN_BIT
    };
    let product: u64 = whole * 1000;
    let mut excess: u64 = 0;
    let mut rest: u64 = product;
    let mut power: u64 = 1;
    assert(pow2(0) == 1) by {
        vstd::arithmetic::power2::lemma2_to64();
    }
    while rest >= SIGNIFICAND_END
        invariant
            excess_bits(product as int) == excess + excess_bits(rest as int),
            power == pow2(excess as nat),
            0 < power <= 1024,
            rest == product / power,
            product < SIGNIFICAND_END * 1000,
            excess <= 10,
        decreases rest,
    {
        proof {
            assert(product >= SIGNIFICAND_END * power) by (nonlinear_arith)
                requires
                    rest >= SIGNIFICAND_END,
                    rest == product / power,
                    power > 0,
            ;
            vstd::arithmetic::power2::lemma_pow2_unfold((excess + 1) as nat);
            vstd::arithmetic::power2::lemma2_to64();
            if excess >= 10 {
                assert(power == 1024);
            } else if excess + 1 < 10 {
                vstd::arithmetic::power2::lemma_pow2_strictly_increases((excess + 1) as nat, 10);
            }
            vstd::arithmetic::div_mod::lemma_div_denominator(product as int, power as int, 2);
        }
        rest = rest / 2;
        power = power * 2;
        excess += 1;
    }
    let q: u64 = product / power;
    let r: u64 = product % power;
    let rounded: u64 = if 2 * r > power || (2 * r == power && q % 2 == 1) {
        q + 1
    } else {
        q
    };
    assert(rounded == nearest_even(product as int, pow2(excess as nat) as int));
    let shifted: u64 = excess + (if exponent == 0 {
        1
    } else {
        exponent
    });
    if shifted >= 1075 {
        scaled_up(rounded, shifted - 1075)
    } else {
        scaled_down(rounded, 1075 - shifted)
    }
}

} // verus!
