//! Saturating arithmetic on frame counts and nanoseconds.
use vstd::prelude::*;

verus! {

/// The nearest `u64` to `value`.
pub open spec fn clamp_u64(value: int) -> u64 {
    if value < 0 {
        0
    } else if value > u64::MAX {
        u64::MAX
    } else {
        value as u64
    }
}

/// The nearest `i64` to `value`.
pub open spec fn clamp_i64(value: int) -> i64 {
    if value < i64::MIN {
        i64::MIN
    } else if value > i64::MAX {
        i64::MAX
    } else {
        value as i64
    }
}

/// The smaller of two numbers.
pub open spec fn least(a: int, b: int) -> int {
    if a < b {
        a
    } else {
        b
    }
}

/// The larger of two numbers.
pub open spec fn greatest(a: int, b: int) -> int {
    if a > b {
        a
    } else {
        b
    }
}

/// Division that drops the fraction, for either sign.
pub open spec fn truncated_div(value: int, divisor: int) -> int {
    if value >= 0 {
        value / divisor
    } else {
        -((-value) / divisor)
    }
}

/// Division that rounds up.
pub open spec fn ceiling_div(value: int, divisor: int) -> int {
    (value + divisor - 1) / divisor
}

/// The nearest 32-bit count.
pub open spec fn clamp_u32(value: int) -> u32 {
    if value < 0 {
        0
    } else if value > u32::MAX {
        u32::MAX
    } else {
        value as u32
    }
}

pub fn mul_u32(a: u32, b: u32) -> (product: u32)
    ensures
        product == clamp_u32(a * b),
{
    match a.checked_mul(b) {
        Some(product) => product,
        None => {
            proof {
                assert(a * b >= 0) by (nonlinear_arith)
                    requires
                        a >= 0,
                        b >= 0,
                ;
            }
            u32::MAX
        },
    }
}

pub fn mul_u64(a: u64, b: u64) -> (product: u64)
    ensures
        product == clamp_u64(a * b),
{
    proof {
        assert(a * b >= 0) by (nonlinear_arith);
    }
    match a.checked_mul(b) {
        Some(product) => product,
        None => u64::MAX,
    }
}

pub fn add_i64(a: i64, b: i64) -> (sum: i64)
    ensures
        sum == clamp_i64(a + b),
{
    match a.checked_add(b) {
        Some(sum) => sum,
        None => if b < 0 {
            i64::MIN
        } else {
            i64::MAX
        },
    }
}

pub fn sub_i64(a: i64, b: i64) -> (difference: i64)
    ensures
        difference == clamp_i64(a - b),
{
    match a.checked_sub(b) {
        Some(difference) => difference,
        None => if b > 0 {
            i64::MIN
        } else {
            i64::MAX
        },
    }
}

pub fn mul_i64(a: i64, b: i64) -> (product: i64)
    ensures
        product == clamp_i64(a * b),
{
    let wide: i128 = {
        proof {
            assert(-0x4000_0000_0000_0000_0000_0000_0000_0000 <= a * b
                <= 0x4000_0000_0000_0000_0000_0000_0000_0000) by (nonlinear_arith)
                requires
                    -0x8000_0000_0000_0000 <= a <= 0x7fff_ffff_ffff_ffff,
                    -0x8000_0000_0000_0000 <= b <= 0x7fff_ffff_ffff_ffff,
            ;
        }
        a as i128 * b as i128
    };
    if wide < i64::MIN as i128 {
        i64::MIN
    } else if wide > i64::MAX as i128 {
        i64::MAX
    } else {
        wide as i64
    }
}

pub fn min_i64(a: i64, b: i64) -> (smaller: i64)
    ensures
        smaller == least(a as int, b as int),
{
    if a < b {
        a
    } else {
        b
    }
}

pub fn min_u64(a: u64, b: u64) -> (smaller: u64)
    ensures
        smaller == least(a as int, b as int),
{
    if a < b {
        a
    } else {
        b
    }
}

/// A signed count with negative values taken as zero.
pub fn unsigned_or_zero(value: i64) -> (count: u64)
    ensures
        count == clamp_u64(value as int),
{
    if value < 0 {
        0
    } else {
        value as u64
    }
}

/// Division of a signed count by a positive one, dropping the fraction.
pub fn truncating_div_i64(value: i64, divisor: i64) -> (quotient: i64)
    requires
        divisor > 0,
        value > i64::MIN,
    ensures
        quotient == truncated_div(value as int, divisor as int),
{
    if value >= 0 {
        value / divisor
    } else {
        proof {
            let v = -value;
            assert(v / divisor as int <= v) by (nonlinear_arith)
                requires
                    v >= 0,
                    divisor > 0,
            ;
            assert(v / divisor as int >= 0) by (nonlinear_arith)
                requires
                    v >= 0,
                    divisor > 0,
            ;
        }
        -((-value) / divisor)
    }
}

/// Division that rounds up.
pub fn ceiling_div_u64(value: u64, divisor: u64) -> (quotient: u64)
    requires
        divisor > 0,
    ensures
        quotient == ceiling_div(value as int, divisor as int),
{
    let whole: u64 = value / divisor;
    let rest: u64 = value % divisor;
    proof {
        let v = value as int;
        let d = divisor as int;
        vstd::arithmetic::div_mod::lemma_fundamental_div_mod(v, d);
        let q = v / d;
        let r = v % d;
        if r == 0 {
            vstd::arithmetic::div_mod::lemma_fundamental_div_mod_converse(v + d - 1, d, q, d - 1);
        } else {
            assert(d * (q + 1) == d * q + d) by (nonlinear_arith);
            vstd::arithmetic::div_mod::lemma_fundamental_div_mod_converse(
                v + d - 1,
                d,
                q + 1,
                r - 1,
            );
            assert(q < v || v == 0) by (nonlinear_arith)
                requires
                    v == d * q + r,
                    r > 0,
                    d > r,
                    q >= 0,
            ;
        }
    }
    if rest == 0 {
        whole
    } else {
        whole + 1
    }
}

/// A clamped number is the number itself where it fits, and the end of the range that it lies
/// beyond otherwise.
pub proof fn clamping_keeps_what_fits(value: int)
    ensures
        0 <= value <= 0xffff_ffff_ffff_ffff ==> clamp_u64(value) == value,
        value <= 0 ==> clamp_u64(value) == 0,
        value >= 0xffff_ffff_ffff_ffff ==> clamp_u64(value) == 0xffff_ffff_ffff_ffff,
        0 <= value <= 0xffff_ffff ==> clamp_u32(value) == value,
        value <= 0 ==> clamp_u32(value) == 0,
        value >= 0xffff_ffff ==> clamp_u32(value) == 0xffff_ffff,
        -0x8000_0000_0000_0000 <= value <= 0x7fff_ffff_ffff_ffff ==> clamp_i64(value) == value,
        value <= -0x8000_0000_0000_0000 ==> clamp_i64(value) == -0x8000_0000_0000_0000,
        value >= 0x7fff_ffff_ffff_ffff ==> clamp_i64(value) == 0x7fff_ffff_ffff_ffff,
{
}

/// The smaller and the larger of two numbers are these two, in order.
pub proof fn extremes_bound_both(a: int, b: int)
    ensures
        least(a, b) <= a <= greatest(a, b),
        least(a, b) <= b <= greatest(a, b),
        least(a, b) + greatest(a, b) == a + b,
        least(a, b) == a || least(a, b) == b,
{
}

/// A quotient that drops the fraction comes within one divisor of the number on the side of zero,
/// and has the opposite sign for the opposite number; one that rounds up is the smallest whose
/// product reaches the number.
pub proof fn quotients_come_within_one(value: int, divisor: int)
    requires
        divisor > 0,
    ensures
        value >= 0 ==> truncated_div(value, divisor) * divisor <= value < (truncated_div(
            value,
            divisor,
        ) + 1) * divisor,
        truncated_div(-value, divisor) == -truncated_div(value, divisor),
        (ceiling_div(value, divisor) - 1) * divisor < value <= ceiling_div(value, divisor)
            * divisor,
{
    vstd::arithmetic::div_mod::lemma_fundamental_div_mod(value, divisor);
    vstd::arithmetic::div_mod::lemma_mod_bound(value, divisor);
    let quotient = value / divisor;
    let rest = value % divisor;
    assert(quotient * divisor <= value < (quotient + 1) * divisor) by (nonlinear_arith)
        requires
            value == divisor * quotient + rest,
            0 <= rest < divisor,
    ;
    let raised = value + divisor - 1;
    vstd::arithmetic::div_mod::lemma_fundamental_div_mod(raised, divisor);
    vstd::arithmetic::div_mod::lemma_mod_bound(raised, divisor);
    let up = raised / divisor;
    let over = raised % divisor;
    assert((up - 1) * divisor < value <= up * divisor) by (nonlinear_arith)
        requires
            value + divisor - 1 == divisor * up + over,
            0 <= over < divisor,
    ;
    if value == 0 {
        vstd::arithmetic::div_mod::lemma_div_basics_1(divisor);
    }
}

} // verus!
