use vstd::prelude::*;
use vstd::arithmetic::div_mod::{
    lemma_div_denominator, lemma_div_is_ordered, lemma_hoist_over_denominator,
};

verus! {

/// Denominator of the reward rate: a rate of `5` pays 5/100 of the staked
/// amount per `TIME_UNIT`.
pub const RATE_DENOMINATOR: i128 = 100;

/// Highest rate an entry point accepts: 100 percent per `TIME_UNIT`.
pub const MAX_RATE: i128 = 100;

/// Number of ledger clock units over which the rate is paid once.
pub const TIME_UNIT: u64 = 1_000_000;

/// The reward owed on `amount` at `rate` percent per `TIME_UNIT` after
/// `elapsed` clock units, rounded down.
pub open spec fn reward_of(amount: int, rate: int, elapsed: int) -> int {
    amount * rate * elapsed / (RATE_DENOMINATOR as int) / (TIME_UNIT as int)
}

/// Dividing by the rate's denominator and then by the time unit rounds as
/// one division by their product does.
pub proof fn lemma_reward_single_division(amount: int, rate: int, elapsed: int)
    requires
        0 <= amount,
        0 <= rate,
        0 <= elapsed,
    ensures
        reward_of(amount, rate, elapsed) == (amount * rate * elapsed) / (RATE_DENOMINATOR
            * TIME_UNIT),
        RATE_DENOMINATOR * TIME_UNIT == 100_000_000,
{
    assert(0 <= amount * rate * elapsed) by (nonlinear_arith)
        requires
            0 <= amount,
            0 <= rate,
            0 <= elapsed,
    ;
    lemma_div_denominator(amount * rate * elapsed, RATE_DENOMINATOR as int, TIME_UNIT as int);
}

/// Whether `rate` is a percentage that the entry points accept.
pub open spec fn valid_rate(rate: int) -> bool {
    0 <= rate <= MAX_RATE
}

/// A reward is never negative, and none accrues on an empty position or
/// over an empty interval.
pub proof fn lemma_reward_nonnegative(amount: int, rate: int, elapsed: int)
    requires
        0 <= amount,
        0 <= rate,
        0 <= elapsed,
    ensures
        0 <= reward_of(amount, rate, elapsed),
        amount == 0 || rate == 0 || elapsed == 0 ==> reward_of(amount, rate, elapsed) == 0,
{
    assert(0 <= amount * rate * elapsed) by (nonlinear_arith)
        requires
            0 <= amount,
            0 <= rate,
            0 <= elapsed,
    ;
    assert(amount == 0 || rate == 0 || elapsed == 0 ==> amount * rate * elapsed == 0)
        by (nonlinear_arith);
}

/// For a fixed amount and rate the reward does not shrink as time passes.
pub proof fn lemma_reward_monotonic(amount: int, rate: int, earlier: int, later: int)
    requires
        0 <= amount,
        0 <= rate,
        earlier <= later,
    ensures
        reward_of(amount, rate, earlier) <= reward_of(amount, rate, later),
{
    assert(amount * rate * earlier <= amount * rate * later) by (nonlinear_arith)
        requires
            0 <= amount,
            0 <= rate,
            earlier <= later,
    ;
    lemma_div_is_ordered(amount * rate * earlier, amount * rate * later, RATE_DENOMINATOR as int);
    lemma_div_is_ordered(
        amount * rate * earlier / (RATE_DENOMINATOR as int),
        amount * rate * later / (RATE_DENOMINATOR as int),
        TIME_UNIT as int,
    );
}

/// Computes `reward_of` in 128-bit arithmetic. The amount is split by the
/// divisor first, so that no intermediate product overflows unless the
/// reward itself does; `None` says that the reward exceeds `i128::MAX`.
pub(crate) fn accrue(amount: i128, rate: i128, elapsed: u64) -> (reward: Option<i128>)
    requires
        0 <= amount,
        valid_rate(rate as int),
    ensures
        reward == (if reward_of(amount as int, rate as int, elapsed as int) <= i128::MAX {
            Some(reward_of(amount as int, rate as int, elapsed as int) as i128)
        } else {
            None
        }),
{
    assert(RATE_DENOMINATOR * TIME_UNIT == 100_000_000) by (nonlinear_arith)
        requires
            RATE_DENOMINATOR == 100,
            TIME_UNIT == 1_000_000,
    ;
    let divisor: u128 = (RATE_DENOMINATOR as u128) * (TIME_UNIT as u128);
    let principal: u128 = amount as u128;
    assert(rate * elapsed <= MAX_RATE * u64::MAX) by (nonlinear_arith)
        requires
            0 <= rate <= MAX_RATE,
            0 <= elapsed <= u64::MAX,
    ;
    let factor: u128 = (rate as u128) * (elapsed as u128);
    let whole: u128 = principal / divisor;
    let rest: u128 = principal % divisor;
    assert(rest * factor <= 100_000_000 * (MAX_RATE * u64::MAX)) by (nonlinear_arith)
        requires
            0 <= rest < 100_000_000,
            0 <= factor <= MAX_RATE * u64::MAX,
    ;
    let low: u128 = (rest * factor) / divisor;
    proof {
        let a = amount as int;
        let f = factor as int;
        let d = divisor as int;
        assert(a * rate * elapsed == a * f) by (nonlinear_arith)
            requires
                f == rate * elapsed,
        ;
        assert(a * f == rest * f + (whole * f) * d) by (nonlinear_arith)
            requires
                a == whole * d + rest,
        ;
        lemma_hoist_over_denominator(rest * f, whole * f, d as nat);
        lemma_reward_single_division(a, rate as int, elapsed as int);
        assert(reward_of(a, rate as int, elapsed as int) == whole * f + low);
        assert(0 <= whole * f) by (nonlinear_arith)
            requires
                0 <= whole,
                0 <= f,
        ;
    }
    match whole.checked_mul(factor) {
        None => None,
        Some(high) => match high.checked_add(low) {
            None => None,
            Some(total) => if total > i128::MAX as u128 {
                None
            } else {
                Some(total as i128)
            },
        },
    }
}

} // verus!
