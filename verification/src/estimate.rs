//! Progress estimates in exact integer arithmetic.
//!
//! Time is measured in whole nanoseconds. A percentage and a remaining time
//! are computed in hundredths of their unit and rounded to the nearest
//! hundredth, a tie going upward.

use vstd::prelude::*;

verus! {

/// Nanoseconds in a hundredth of a second.
pub const NANOS_PER_HUNDREDTH: u64 = 10_000_000;

/// Hundredths of a percent in the whole.
pub const HUNDREDTHS_OF_PERCENT: u64 = 10_000;

/// `a / b` rounded to the nearest natural number, a tie going upward.
pub open spec fn round_div(a: nat, b: nat) -> nat
    recommends
        b > 0,
{
    if 2 * (a % b) >= b {
        a / b + 1
    } else {
        a / b
    }
}

/// The share of `total` that `current` steps make, in hundredths of a percent.
pub open spec fn percent_hundredths(current: nat, total: nat) -> nat
    recommends
        total > 0,
{
    round_div(current * 10_000, total)
}

/// The number of steps taken in one throttle interval at the average speed of
/// `current` steps in `elapsed` nanoseconds, rounded down.
pub open spec fn steps_per_interval(interval: nat, current: nat, elapsed: nat) -> nat
    recommends
        elapsed > 0,
{
    (interval * current) / elapsed
}

/// How far `current` is from `total`, in steps, on either side.
pub open spec fn distance(total: nat, current: nat) -> nat {
    if current <= total {
        (total - current) as nat
    } else {
        (current - total) as nat
    }
}

/// The time that the steps between `current` and `total` take at the average
/// speed of `current` steps in `elapsed` nanoseconds, in hundredths of a
/// second.
pub open spec fn eta_hundredths(total: nat, current: nat, elapsed: nat) -> nat
    recommends
        current > 0,
{
    round_div(distance(total, current) * elapsed, current * 10_000_000)
}

/// Division rounded to the nearest number, a tie going upward.
pub fn rounded_quotient(a: u128, b: u128) -> (q: u128)
    requires
        b > 0,
    ensures
        q == round_div(a as nat, b as nat),
{
    let whole: u128 = a / b;
    let rest: u128 = a % b;
    if rest >= b - rest {
        proof {
            vstd::arithmetic::div_mod::lemma_fundamental_div_mod(a as int, b as int);
        }
        assert(whole < u128::MAX) by (nonlinear_arith)
            requires
                whole == a / b,
                rest == a % b,
                rest >= b - rest,
                0 < b,
                a <= u128::MAX,
                rest < b,
                a == b * whole + rest,
        {
            assert(b >= 2);
            assert(b * whole >= 2 * whole);
        }
        whole + 1
    } else {
        whole
    }
}

/// The share of `total` that `current` steps make, in hundredths of a percent.
pub fn percent(current: usize, total: usize) -> (p: u128)
    requires
        total > 0,
    ensures
        p == percent_hundredths(current as nat, total as nat),
{
    assert(current * HUNDREDTHS_OF_PERCENT <= u128::MAX) by (nonlinear_arith)
        requires
            current <= 0xffff_ffff_ffff_ffff,
            HUNDREDTHS_OF_PERCENT == 10_000,
    {
    }
    let scaled: u128 = (current as u128) * (HUNDREDTHS_OF_PERCENT as u128);
    rounded_quotient(scaled, total as u128)
}

/// The number of steps taken in one throttle interval of `interval`
/// nanoseconds, at the average speed of `current` steps in `elapsed`
/// nanoseconds.
pub fn interval_steps(interval: u64, current: usize, elapsed: u64) -> (n: u128)
    requires
        elapsed > 0,
    ensures
        n == steps_per_interval(interval as nat, current as nat, elapsed as nat),
{
    assert(interval * current <= u128::MAX) by (nonlinear_arith)
        requires
            interval <= 0xffff_ffff_ffff_ffff,
            current <= 0xffff_ffff_ffff_ffff,
    {
    }
    let covered: u128 = (interval as u128) * (current as u128);
    covered / (elapsed as u128)
}

/// The time left until `total` at the average speed of `current` steps in
/// `elapsed` nanoseconds, in hundredths of a second. Where `current` is beyond
/// `total`, this is the time by which the end was passed.
pub fn eta(total: usize, current: usize, elapsed: u64) -> (h: u128)
    requires
        current > 0,
    ensures
        h == eta_hundredths(total as nat, current as nat, elapsed as nat),
{
    let steps: usize = if current <= total {
        total - current
    } else {
        current - total
    };
    assert(steps * elapsed <= u128::MAX) by (nonlinear_arith)
        requires
            steps <= 0xffff_ffff_ffff_ffff,
            elapsed <= 0xffff_ffff_ffff_ffff,
    {
    }
    let work: u128 = (steps as u128) * (elapsed as u128);
    let unit: u128 = (current as u128) * (NANOS_PER_HUNDREDTH as u128);
    rounded_quotient(work, unit)
}

} // verus!
