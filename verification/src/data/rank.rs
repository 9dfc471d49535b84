//! Real numbers known by their rank.
//!
//! Health, damage and distances are binary floating-point numbers. A rule that
//! only compares such numbers needs no arithmetic on them: it is enough to know
//! the place of each among all others. The rank of a non-negative number is its
//! bit pattern; the rank of a negative one is the negated bit pattern of its
//! absolute value. So both zeros have rank 0, and of two numbers the greater
//! has the greater rank.

use vstd::arithmetic::div_mod::lemma_div_denominator;
use vstd::arithmetic::power2::{
    lemma2_to64, lemma_pow2_pos, lemma_pow2_strictly_increases, lemma_pow2_unfold, pow2,
};
use vstd::prelude::*;

verus! {

/// The rank of a single-precision number.
pub type Rank32 = i32;

/// The rank of a double-precision number.
pub type Rank64 = i64;

/// The smaller of two ranks.
pub open spec fn rank_min(a: int, b: int) -> int {
    if a <= b {
        a
    } else {
        b
    }
}

/// The greater of two ranks.
pub open spec fn rank_max(a: int, b: int) -> int {
    if a >= b {
        a
    } else {
        b
    }
}

/// The smaller of two single-precision ranks.
pub fn min32(a: Rank32, b: Rank32) -> (r: Rank32)
    ensures
        r == rank_min(a as int, b as int),
{
    if a <= b {
        a
    } else {
        b
    }
}

/// The greater of two single-precision ranks.
pub fn max32(a: Rank32, b: Rank32) -> (r: Rank32)
    ensures
        r == rank_max(a as int, b as int),
{
    if a >= b {
        a
    } else {
        b
    }
}

/// The first rank of a single-precision number with a leading one.
pub const FIRST_NORMAL: Rank32 = 0x80_0000;

/// The digits of a number that is not below 0: it is this whole number times 2 to the power of
/// [`exponent32`].
pub open spec fn digits32(rank: Rank32) -> int {
    if rank < FIRST_NORMAL {
        rank as int
    } else {
        rank as int % (FIRST_NORMAL as int) + FIRST_NORMAL
    }
}

/// The power of 2 that the digits of a number count in.
pub open spec fn exponent32(rank: Rank32) -> int {
    if rank < FIRST_NORMAL {
        -149
    } else {
        rank as int / (FIRST_NORMAL as int) - 150
    }
}

/// A quarter of a number that is not below 0, rounded down.
pub open spec fn quarter_of(rank: Rank32) -> int {
    let exponent = exponent32(rank) - 2;
    if exponent < 0 {
        digits32(rank) / (pow2((-exponent) as nat) as int)
    } else {
        digits32(rank) * pow2(exponent as nat)
    }
}

/// A quarter of a number that is not below 0, rounded down, as far as 32 bits hold it.
pub fn whole_quarters(rank: Rank32) -> (r: i32)
    requires
        rank >= 0,
    ensures
        r == rank_min(quarter_of(rank), i32::MAX as int),
{
    let subnormal: bool = rank < FIRST_NORMAL;
    let digits: i64 = if subnormal {
        rank as i64
    } else {
        (rank % FIRST_NORMAL) as i64 + FIRST_NORMAL as i64
    };
    let exponent: i32 = if subnormal {
        -151
    } else {
        rank / FIRST_NORMAL - 152
    };
    if exponent < 0 {
        let mut left: i64 = digits;
        let mut done: i32 = 0;
        proof {
            lemma2_to64();
            let one = pow2(done as nat) as int;
            assert(one == 1);
            assert(digits as int / one == digits) by (nonlinear_arith)
                requires
                    one == 1,
            ;
        }
        while done < -exponent
            invariant
                0 <= done <= -exponent,
                -151 <= exponent,
                0 <= left <= digits < 0x100_0000,
                left == digits as int / (pow2(done as nat) as int),
            decreases -exponent - done,
        {
            proof {
                lemma_pow2_pos(done as nat);
                lemma_pow2_unfold((done + 1) as nat);
                lemma_div_denominator(digits as int, pow2(done as nat) as int, 2);
                assert(pow2(done as nat) * 2 == pow2((done + 1) as nat));
            }
            left = left / 2;
            done = done + 1;
        }
        left as i32
    } else {
        let mut grown: i64 = digits;
        let mut done: i32 = 0;
        proof {
            lemma2_to64();
            let one = pow2(done as nat) as int;
            assert(one == 1);
            assert(digits * one == digits) by (nonlinear_arith)
                requires
                    one == 1,
            ;
        }
        while done < exponent && done < 8
            invariant
                0 <= done <= exponent,
                done <= 8,
                FIRST_NORMAL <= digits < 0x100_0000,
                grown == digits * pow2(done as nat),
                grown < 0x100_0000 * pow2(done as nat),
                pow2(done as nat) <= 0x100,
            decreases exponent - done,
        {
            proof {
                lemma2_to64();
                lemma_pow2_unfold((done + 1) as nat);
                let power = pow2(done as nat) as int;
                assert(digits * (2 * power) == 2 * (digits * power)) by (nonlinear_arith);
                assert(done < 8 ==> pow2((done + 1) as nat) <= 0x100) by {
                    if done + 1 < 8 {
                        lemma_pow2_strictly_increases((done + 1) as nat, 8);
                    }
                }
            }
            grown = grown * 2;
            done = done + 1;
        }
        proof {
            if done < exponent {
                lemma2_to64();
                lemma_pow2_strictly_increases(8, exponent as nat);
                let power = pow2(exponent as nat) as int;
                assert(digits * power >= 0x80_0000 * 0x100) by (nonlinear_arith)
                    requires
                        digits >= 0x80_0000,
                        power >= 0x100,
                ;
                assert(grown == digits * 0x100);
            }
        }
        if grown > i32::MAX as i64 {
            i32::MAX
        } else {
            grown as i32
        }
    }
}

/// Law: of two ranks the smaller one is one of them and above neither, and the greater one is one
/// of them and below neither.
pub proof fn law_smaller_and_greater(a: Rank32, b: Rank32, least: Rank32, most: Rank32)
    requires
        call_ensures(min32, (a, b), least),
        call_ensures(max32, (a, b), most),
    ensures
        least <= a,
        least <= b,
        least == a || least == b,
        most >= a,
        most >= b,
        most == a || most == b,
        least + most == a + b,
{
}

/// Law: a number below 4 has no whole quarter of 4 in it, one below 8 has one, and one below 16 has two or
/// three, two up to 12.
pub proof fn law_whole_quarters_of_small_numbers(low: Rank32, quarter: i32)
    requires
        call_ensures(whole_quarters, (low,), quarter),
        low >= 0,
    ensures
        quarter >= 0,
        low < 0x4080_0000 ==> quarter == 0,
        0x4080_0000 <= low < 0x4100_0000 ==> quarter == 1,
        0x4100_0000 <= low < 0x4140_0000 ==> quarter == 2,
        0x4140_0000 <= low < 0x4180_0000 ==> quarter == 3,
{
    lemma2_to64();
    let digits = digits32(low);
    let exponent = exponent32(low) - 2;
    if exponent < 0 {
        let power = (-exponent) as nat;
        let unit = pow2(power) as int;
        lemma_pow2_pos(power);
        assert(digits / unit >= 0) by (nonlinear_arith)
            requires
                digits >= 0,
                unit > 0,
        ;
        if low < 0x4080_0000 {
            if power > 24 {
                lemma_pow2_strictly_increases(24, power);
            }
            assert(digits / unit == 0) by (nonlinear_arith)
                requires
                    0 <= digits < 0x100_0000,
                    unit >= 0x100_0000,
            ;
        } else if low < 0x4100_0000 {
            assert(digits / unit == 1) by (nonlinear_arith)
                requires
                    0x80_0000 <= digits < 0x100_0000,
                    unit == 0x80_0000,
            ;
        } else if low < 0x4180_0000 {
            assert(digits < 0xC0_0000 <==> low < 0x4140_0000);
            assert(digits / unit == (if digits < 0xC0_0000 {
                2int
            } else {
                3int
            })) by (nonlinear_arith)
                requires
                    0x80_0000 <= digits < 0x100_0000,
                    unit == 0x40_0000,
            ;
        }
    } else {
        let unit = pow2(exponent as nat) as int;
        assert(digits * unit >= 0) by (nonlinear_arith)
            requires
                digits >= 0,
                unit >= 0,
        ;
    }
}

} // verus!
