//! The deterministic pseudo-randomness the game runs on.
//!
//! The game derives a reproducible value from the turn counter, the current
//! level number and, optionally, an extra factor.  The raw seed is the
//! integer `(10 * time + level_number) * (10 * time + level_number + time)`;
//! it is then repeatedly divided by ten until its magnitude is at most one.
//! A [`Randomness`] keeps that computation exact: it is the decimal
//! fraction `num / 10^pow`, so equal inputs give identical values, and the
//! quartile tests that drive entity movement are exact comparisons.

use vstd::prelude::*;

verus! {

/// 10 raised to the power `k`.
pub open spec fn pow10(k: nat) -> int
    decreases k,
{
    if k == 0 {
        1
    } else {
        10 * pow10((k - 1) as nat)
    }
}

/// Ten to any power is at least one.
pub proof fn lemma_pow10_pos(k: nat)
    ensures
        pow10(k) >= 1,
    decreases k,
{
    if k > 0 {
        lemma_pow10_pos((k - 1) as nat);
    }
}

/// `pow10` does not decrease as its argument grows.
pub proof fn lemma_pow10_le(j: nat, k: nat)
    requires
        j <= k,
    ensures
        pow10(j) <= pow10(k),
    decreases k,
{
    if j < k {
        lemma_pow10_le(j, (k - 1) as nat);
        lemma_pow10_pos((k - 1) as nat);
    }
}

/// The exponent the normalization loop stops at when it starts from
/// `base`: the first `k >= base` with `v <= pow10(k)`.
pub open spec fn norm_above(v: int, base: nat) -> nat
    decreases (if v <= pow10(base) {
        0int
    } else {
        v - pow10(base)
    }),
    via norm_above_decreases
{
    if v <= pow10(base) {
        base
    } else {
        norm_above(v, base + 1)
    }
}

#[via_fn]
proof fn norm_above_decreases(v: int, base: nat) {
    lemma_pow10_pos(base);
    lemma_pow10_pos((base + 1) as nat);
}

/// What the normalization loop guarantees of its result: the exponent is
/// at least `base`, the fraction `v / pow10(k)` is at most one, and `k` is
/// the least such exponent at or above `base`.
pub open spec fn is_norm_above(v: int, base: nat, k: nat) -> bool {
    &&& base <= k
    &&& v <= pow10(k)
    &&& k > base ==> v > pow10((k - 1) as nat)
}

/// `norm_above` satisfies its own characterization.
pub proof fn lemma_norm_above_is_norm(v: int, base: nat)
    ensures
        is_norm_above(v, base, norm_above(v, base)),
    decreases (if v <= pow10(base) {
        0int
    } else {
        v - pow10(base)
    }),
{
    lemma_pow10_pos(base);
    if v <= pow10(base) {
    } else {
        lemma_pow10_pos((base + 1) as nat);
        lemma_norm_above_is_norm(v, base + 1);
        let k = norm_above(v, base + 1);
        if k == base + 1 {
            assert(v > pow10((k - 1) as nat));
        }
    }
}

/// Only one exponent satisfies the characterization, so any two values
/// normalized from the same seed agree exactly.
pub proof fn lemma_norm_above_unique(v: int, base: nat, k1: nat, k2: nat)
    requires
        is_norm_above(v, base, k1),
        is_norm_above(v, base, k2),
    ensures
        k1 == k2,
{
    if k1 < k2 {
        lemma_pow10_le(k1, (k2 - 1) as nat);
    }
    if k2 < k1 {
        lemma_pow10_le(k2, (k1 - 1) as nat);
    }
}

/// The stopping exponent never passes an exponent whose power of ten
/// already bounds the value.
pub proof fn lemma_norm_above_le(v: int, base: nat, m: nat)
    requires
        base <= m,
        v <= pow10(m),
    ensures
        norm_above(v, base) <= m,
{
    lemma_norm_above_is_norm(v, base);
    let k = norm_above(v, base);
    if k > m {
        lemma_pow10_le(m, (k - 1) as nat);
    }
}

/// The raw seed the game derives a pseudo-random value from: with
/// `s = 10 * time + level_number`, the seed is `s * (s + time)`.
pub open spec fn seed_of(time: u32, level_number: i32) -> int {
    let s = 10 * (time as int) + (level_number as int);
    s * (s + time as int)
}

/// The pseudo-random value derived from the turn counter and the current
/// level number: the seed, divided by ten until it is at most one.
pub open spec fn randomness_of(time: u32, level_number: i32) -> Randomness {
    let v = seed_of(time, level_number);
    Randomness { num: v as i128, pow: norm_above(v, 0) as u32 }
}

/// The pseudo-random value with an extra factor mixed in: the plain value
/// is multiplied by `number * number` and divided by ten, from its current
/// exponent upward, until it is at most one again.
pub open spec fn randomness_with_of(time: u32, level_number: i32, number: i32) -> Randomness {
    let base = randomness_of(time, level_number);
    let v = (base.num as int) * (number as int) * (number as int);
    Randomness { num: v as i128, pow: norm_above(v, base.pow as nat) as u32 }
}

/// An exact pseudo-random value: the decimal fraction `num / 10^pow`.
///
/// A well-formed value is at most one; it can be negative when the raw
/// seed itself is (a level number negative enough outweighs the time).
#[derive(Copy, Clone, Debug, Eq, PartialEq, Structural)]
pub struct Randomness {
    /// The numerator: the seed, exactly.
    pub num: i128,
    /// The denominator's exponent: the value is `num / 10^pow`.
    pub pow: u32,
}

impl Randomness {
    /// The value is at most one and its numerator does not leave the range
    /// the comparison arithmetic can take.
    pub open spec fn wf(self) -> bool {
        &&& self.pow <= 37
        &&& self.num as int <= pow10(self.pow as nat)
        &&& -pow10(37) <= self.num as int
    }

    /// True iff the value is strictly greater than `quarters / 4`.
    pub open spec fn spec_exceeds_quarters(self, quarters: int) -> bool {
        4 * (self.num as int) > quarters * pow10(self.pow as nat)
    }

    /// Compares the value against `quarters / 4`, exactly: returns true
    /// iff `num / 10^pow > quarters / 4`.
    pub fn exceeds_quarters(&self, quarters: u8) -> (r: bool)
        requires
            self.wf(),
            quarters <= 4,
        ensures
            r == self.spec_exceeds_quarters(quarters as int),
    {
        let p = pow10_i128(self.pow);
        proof {
            lemma_pow10_pos(self.pow as nat);
            lemma_pow10_le(self.pow as nat, 37);
            lemma_pow10_37_value();
            assert(0 <= (quarters as int) * (p as int) <= 4 * (p as int)) by (nonlinear_arith)
                requires
                    0 <= quarters as int <= 4,
                    0 <= p as int,
            ;
        }
        4 * self.num > (quarters as i128) * p
    }
}

/// Computes `pow10` on machine integers; `k` is small enough for the
/// result to fit.
pub fn pow10_i128(k: u32) -> (r: i128)
    requires
        k <= 37,
    ensures
        r as int == pow10(k as nat),
{
    let mut i: u32 = 0;
    let mut p: i128 = 1;
    while i < k
        invariant
            i <= k <= 37,
            p as int == pow10(i as nat),
        decreases k - i,
    {
        proof {
            lemma_pow10_le((i + 1) as nat, 37);
            lemma_pow10_pos(i as nat);
            lemma_pow10_37_value();
        }
        p = p * 10;
        i = i + 1;
    }
    p
}

/// Divides `v` by ten, counting from exponent `base` (whose power of ten
/// is `p0`), until the fraction is at most one: the normalization loop
/// shared by the two pseudo-randomness functions.  Returns the final
/// exponent together with its power of ten.
pub fn norm_from(v: i128, base: u32, p0: i128) -> (r: (u32, i128))
    requires
        p0 as int == pow10(base as nat),
        v <= i128::MAX / 10,
        base as int + 40 <= u32::MAX as int,
    ensures
        r.0 as nat == norm_above(v as int, base as nat),
        r.1 as int == pow10(r.0 as nat),
{
    let mut k: u32 = base;
    let mut p: i128 = p0;
    proof {
        lemma_pow10_pos(base as nat);
    }
    while v > p
        invariant
            base <= k,
            k as int <= base as int + 38,
            p as int == pow10(k as nat),
            1 <= p as int,
            v <= i128::MAX / 10,
            norm_above(v as int, base as nat) == norm_above(v as int, k as nat),
            base as int + 40 <= u32::MAX as int,
        decreases base as int + 38 - k as int,
    {
        proof {
            lemma_pow10_pos(k as nat);
            if k >= 38 {
                lemma_pow10_le(38, k as nat);
                lemma_pow10_38_large();
            }
            assert(norm_above(v as int, k as nat) == norm_above(v as int, k as nat + 1));
        }
        p = p * 10;
        k = k + 1;
        proof {
            lemma_pow10_pos(k as nat);
        }
    }
    (k, p)
}

/// The concrete value of ten to the 37th power: the largest power of ten
/// a well-formed pseudo-random value's denominator can reach.
pub proof fn lemma_pow10_37_value()
    ensures
        pow10(37) == 10000000000000000000000000000000000000int,
{
    reveal_with_fuel(pow10, 40);
}

/// Ten to the 38th power outstrips a tenth of the widest machine integer
/// in use, so the normalization loop never climbs that far.
proof fn lemma_pow10_38_large()
    ensures
        pow10(38) > i128::MAX / 10,
{
    reveal_with_fuel(pow10, 40);
    assert(pow10(38) == 100000000000000000000000000000000000000int);
}

/// When the turn counter and level number stay within the range the
/// seed arithmetic takes, the plain pseudo-random value is well formed
/// and pinned down exactly: its numerator is the raw seed and its
/// exponent the seed's normalization.
pub proof fn lemma_randomness_of_wf(time: u32, level_number: i32)
    requires
        i32::MIN as int <= 10 * (time as int) + (level_number as int),
        10 * (time as int) + (level_number as int) <= i32::MAX as int,
    ensures
        randomness_of(time, level_number).wf(),
        randomness_of(time, level_number).num as int == seed_of(time, level_number),
        randomness_of(time, level_number).pow as nat == norm_above(seed_of(time, level_number), 0),
        -0x1_0000_0000_0000_0000 <= seed_of(time, level_number) <= 0x1_0000_0000_0000_0000,
{
    let s = 10 * (time as int) + (level_number as int);
    let v = seed_of(time, level_number);
    assert(-0x1_0000_0000_0000_0000 <= v <= 0x1_0000_0000_0000_0000) by (nonlinear_arith)
        requires
            v == s * (s + time as int),
            -0x8000_0000 <= s <= 0x8000_0000,
            0 <= time as int,
            (time as int) < 0x1_0000_0000,
    ;
    lemma_pow10_37_value();
    lemma_norm_above_le(v, 0, 37);
    lemma_norm_above_is_norm(v, 0);
}

/// The same, with the extra factor mixed in: the numerator is the raw
/// seed times the square of the factor, and the exponent continues the
/// normalization from the plain value's exponent.
pub proof fn lemma_randomness_with_of_wf(time: u32, level_number: i32, number: i32)
    requires
        i32::MIN as int <= 10 * (time as int) + (level_number as int),
        10 * (time as int) + (level_number as int) <= i32::MAX as int,
        (number as int) * (number as int) <= i32::MAX as int,
    ensures
        randomness_with_of(time, level_number, number).wf(),
        randomness_with_of(time, level_number, number).num as int == seed_of(time, level_number)
            * (number as int) * (number as int),
        randomness_with_of(time, level_number, number).pow as nat == norm_above(
            seed_of(time, level_number) * (number as int) * (number as int),
            randomness_of(time, level_number).pow as nat,
        ),
        -0x8000_0000_0000_0000_0000_0000 <= seed_of(time, level_number) * (number as int) * (
        number as int) <= 0x8000_0000_0000_0000_0000_0000,
{
    lemma_randomness_of_wf(time, level_number);
    let base = randomness_of(time, level_number);
    let v = seed_of(time, level_number);
    let nn = (number as int) * (number as int);
    assert(0 <= nn <= 0x8000_0000) by (nonlinear_arith)
        requires
            nn == (number as int) * (number as int),
            nn <= i32::MAX as int,
    ;
    let v2 = v * (number as int) * (number as int);
    assert(v2 == v * nn) by (nonlinear_arith)
        requires
            v2 == v * (number as int) * (number as int),
            nn == (number as int) * (number as int),
    ;
    assert(-0x8000_0000_0000_0000_0000_0000 <= v2 <= 0x8000_0000_0000_0000_0000_0000)
        by (nonlinear_arith)
        requires
            v2 == v * nn,
            -0x1_0000_0000_0000_0000 <= v <= 0x1_0000_0000_0000_0000,
            0 <= nn <= 0x8000_0000,
    ;
    lemma_pow10_37_value();
    lemma_norm_above_le(v2, base.pow as nat, 37);
    lemma_norm_above_is_norm(v2, base.pow as nat);
}

/// Pseudo-randomness is a pure function of its inputs: two values drawn
/// from the same turn counter and level number are identical, bit for bit,
/// and likewise when the same extra factor is mixed in.
pub proof fn lemma_randomness_deterministic(time: u32, level_number: i32, number: i32)
    ensures
        randomness_of(time, level_number) == randomness_of(time, level_number),
        randomness_with_of(time, level_number, number) == randomness_with_of(
            time,
            level_number,
            number,
        ),
{
}

/// When the base seed is not negative, the pseudo-random value lies in
/// [0, 1]: the numerator is at least zero and at most its denominator.
pub proof fn lemma_randomness_in_range(time: u32, level_number: i32)
    requires
        0 <= 10 * (time as int) + (level_number as int),
        10 * (time as int) + (level_number as int) <= i32::MAX as int,
    ensures
        0 <= randomness_of(time, level_number).num,
        randomness_of(time, level_number).num as int <= pow10(
            randomness_of(time, level_number).pow as nat,
        ),
{
    let s = 10 * (time as int) + (level_number as int);
    let v = seed_of(time, level_number);
    assert(v >= 0) by (nonlinear_arith)
        requires
            v == s * (s + time as int),
            s >= 0,
            time as int >= 0,
    ;
    assert(v <= 0x8000_0000 * (0x8000_0000 + 0x1_0000_0000)) by (nonlinear_arith)
        requires
            v == s * (s + time as int),
            0 <= s <= 0x8000_0000,
            0 <= time as int,
            (time as int) < 0x1_0000_0000,
    ;
    assert(pow10(37) > 0x8000_0000 * (0x8000_0000 + 0x1_0000_0000)) by {
        lemma_pow10_37_value();
    }
    lemma_norm_above_is_norm(v, 0);
    lemma_norm_above_le(v, 0, 37);
}

/// The same for the value with an extra factor: when the base seed is
/// not negative, the numerator stays at least zero and at most its
/// denominator, so the value lies in [0, 1].
pub proof fn lemma_randomness_with_in_range(time: u32, level_number: i32, number: i32)
    requires
        0 <= 10 * (time as int) + (level_number as int),
        10 * (time as int) + (level_number as int) <= i32::MAX as int,
        (number as int) * (number as int) <= i32::MAX as int,
    ensures
        0 <= randomness_with_of(time, level_number, number).num,
        randomness_with_of(time, level_number, number).num as int <= pow10(
            randomness_with_of(time, level_number, number).pow as nat,
        ),
{
    lemma_randomness_of_wf(time, level_number);
    lemma_randomness_with_of_wf(time, level_number, number);
    let s = 10 * (time as int) + (level_number as int);
    let v = seed_of(time, level_number);
    assert(v >= 0) by (nonlinear_arith)
        requires
            v == s * (s + time as int),
            s >= 0,
            time as int >= 0,
    ;
    let v2 = v * (number as int) * (number as int);
    assert(v2 >= 0) by (nonlinear_arith)
        requires
            v2 == v * (number as int) * (number as int),
            v >= 0,
    ;
}

} // verus!
