//! Gas pricing: the price offered on each retry tier, and the coin amounts
//! and padded gas limits derived from it.
use vstd::prelude::*;
use vstd::arithmetic::div_mod::lemma_div_is_ordered;

verus! {

/// Number of nano-units in one unit.
pub const NANOS_PER_UNIT: u64 = 1_000_000_000;

/// A non-negative decimal with nine fractional digits, worth `nanos / 10^9`.
#[derive(Clone, Copy, Debug, PartialEq, Eq, Structural)]
pub struct Fixed {
    pub nanos: u64,
}

/// `2 * n`, or `u64::MAX` where that does not fit.
pub open spec fn saturating_double(n: u64) -> u64 {
    if 2 * n <= u64::MAX {
        (2 * n) as u64
    } else {
        u64::MAX
    }
}

impl Fixed {
    /// The decimal worth `nanos / 10^9`.
    pub fn from_nanos(nanos: u64) -> (r: Fixed)
        ensures
            r.nanos == nanos,
    {
        Fixed { nanos }
    }

    /// The decimal worth `units + nanos / 10^9`, where that fits.
    pub fn from_parts(units: u64, nanos: u64) -> (r: Option<Fixed>)
        ensures
            r matches Some(f) <==> units * NANOS_PER_UNIT + nanos <= u64::MAX,
            r matches Some(f) ==> f.nanos == units * NANOS_PER_UNIT + nanos,
    {
        if units > (u64::MAX - nanos) / NANOS_PER_UNIT {
            assert(units * NANOS_PER_UNIT + nanos > u64::MAX) by (nonlinear_arith)
                requires
                    units > (u64::MAX - nanos) as int / (NANOS_PER_UNIT as int),
                    NANOS_PER_UNIT == 1_000_000_000u64,
            ;
            None
        } else {
            assert(units * NANOS_PER_UNIT + nanos <= u64::MAX) by (nonlinear_arith)
                requires
                    units <= (u64::MAX - nanos) as int / (NANOS_PER_UNIT as int),
                    NANOS_PER_UNIT == 1_000_000_000u64,
            ;
            Some(Fixed { nanos: units * NANOS_PER_UNIT + nanos })
        }
    }

    /// Twice this value, or the largest value where that does not fit.
    pub fn doubled(self) -> (r: Fixed)
        ensures
            r.nanos == saturating_double(self.nanos),
    {
        if self.nanos <= u64::MAX / 2 {
            Fixed { nanos: 2 * self.nanos }
        } else {
            Fixed { nanos: u64::MAX }
        }
    }
}

/// The price, in nano-units of coin per unit of gas, offered on retry tier
/// `attempt` of `max_attempts`: `high` from tier `max_attempts` on, and below
/// that the point `attempt / max_attempts` of the way from `low` to `high`,
/// truncated to nine fractional digits.
pub open spec fn price_for_attempt_spec(attempt: nat, low: nat, high: nat, max_attempts: nat) -> nat {
    if attempt >= max_attempts {
        high
    } else {
        (low * (max_attempts - attempt) as nat + high * attempt) / max_attempts
    }
}

/// `units * (price / 10^9)`, truncated to an integer and capped at `u64::MAX`.
pub open spec fn coins_for_spec(units: nat, price_nanos: nat) -> nat {
    let exact = units * price_nanos / (NANOS_PER_UNIT as nat);
    if exact <= u64::MAX {
        exact
    } else {
        u64::MAX as nat
    }
}

/// The price offered on retry tier `attempt`; tiers from `max_attempts` on
/// are pinned at `high`, so `max_attempts == 0` always offers `high`.
pub fn price_for_attempt(attempt: u64, low: Fixed, high: Fixed, max_attempts: u64) -> (r: Fixed)
    ensures
        r.nanos == price_for_attempt_spec(
            attempt as nat,
            low.nanos as nat,
            high.nanos as nat,
            max_attempts as nat,
        ),
{
    if attempt >= max_attempts {
        return high;
    }
    let rest = (max_attempts - attempt) as u128;
    let lo = low.nanos as u128;
    let hi = high.nanos as u128;
    let a = attempt as u128;
    let n = max_attempts as u128;
    assert(lo * rest + hi * a <= (u64::MAX as int) * n) by (nonlinear_arith)
        requires
            lo <= u64::MAX,
            hi <= u64::MAX,
            rest + a == n,
    ;
    assert((u64::MAX as int) * n <= (u64::MAX as int) * (u64::MAX as int)) by (nonlinear_arith)
        requires
            n <= u64::MAX,
    ;
    let sum = lo * rest + hi * a;
    let q = sum / n;
    assert(q <= u64::MAX) by {
        lemma_div_is_ordered(sum as int, (u64::MAX as int) * n, n as int);
        assert((u64::MAX as int) * n / (n as int) == u64::MAX) by (nonlinear_arith)
            requires
                n > 0,
        ;
    }
    Fixed { nanos: q as u64 }
}

/// `units` times the decimal `price`, truncated to an integer and capped at
/// `u64::MAX`.
pub fn coins_for(units: u64, price: Fixed) -> (r: u64)
    ensures
        r == coins_for_spec(units as nat, price.nanos as nat),
{
    assert((units as int) * (price.nanos as int) <= u128::MAX) by (nonlinear_arith)
        requires
            units <= u64::MAX,
            price.nanos <= u64::MAX,
    ;
    let product = (units as u128) * (price.nanos as u128);
    let exact = product / (NANOS_PER_UNIT as u128);
    if exact > u64::MAX as u128 {
        u64::MAX
    } else {
        exact as u64
    }
}

/// The gas limit requested for a transaction whose simulation used
/// `gas_used`: the estimate times `multiplier`, truncated to an integer.
pub fn padded_gas(gas_used: u64, multiplier: Fixed) -> (r: u64)
    ensures
        r == coins_for_spec(gas_used as nat, multiplier.nanos as nat),
{
    coins_for(gas_used, multiplier)
}

/// The price tiers run from `low`, on tier zero, up to `high`, on tier
/// `max_attempts` and every tier after it; below `max_attempts` the price is
/// `low` plus the share `attempt / max_attempts` of `high - low`, truncated,
/// so it never decreases from one tier to the next and stays between `low`
/// and `high`.
pub proof fn lemma_price_for_attempt_interpolates(
    low: nat,
    high: nat,
    max_attempts: nat,
    a: nat,
    b: nat,
)
    requires
        low <= high,
        a <= b,
    ensures
        max_attempts > 0 ==> price_for_attempt_spec(0, low, high, max_attempts) == low,
        price_for_attempt_spec(max_attempts, low, high, max_attempts) == high,
        b >= max_attempts ==> price_for_attempt_spec(b, low, high, max_attempts) == high,
        a < max_attempts ==> price_for_attempt_spec(a, low, high, max_attempts) == low + (
        high - low) as nat * a / max_attempts,
        low <= price_for_attempt_spec(a, low, high, max_attempts) <= high,
        price_for_attempt_spec(a, low, high, max_attempts) <= price_for_attempt_spec(
            b,
            low,
            high,
            max_attempts,
        ),
{
    let n = max_attempts;
    let d = (high - low) as nat;
    if max_attempts > 0 {
        assert(low * n / n == low) by (nonlinear_arith)
            requires
                n > 0,
        ;
        assert((low * (n - 0) as nat + high * 0) == low * n) by (nonlinear_arith);
    }
    if a < n {
        lemma_interpolation_shape(low, high, n, a);
    }
    if b < n {
        lemma_interpolation_shape(low, high, n, b);
        assert(d * a <= d * b) by (nonlinear_arith)
            requires
                a <= b,
        ;
        lemma_div_is_ordered((d * a) as int, (d * b) as int, n as int);
    }
}

/// Below the top tier the price is `low` plus a truncated share of the gap,
/// and that share never exceeds the gap.
proof fn lemma_interpolation_shape(low: nat, high: nat, n: nat, a: nat)
    requires
        low <= high,
        a < n,
    ensures
        price_for_attempt_spec(a, low, high, n) == low + (high - low) as nat * a / n,
        (high - low) as nat * a / n <= (high - low) as nat,
{
    let d = (high - low) as nat;
    assert(low * (n - a) as nat + high * a == low * n + d * a) by (nonlinear_arith)
        requires
            a < n,
            d == high - low,
    ;
    assert((low * n + d * a) / n == low + (d * a) / n) by (nonlinear_arith)
        requires
            n > 0,
    ;
    assert(d * a <= d * n) by (nonlinear_arith)
        requires
            a < n,
    ;
    lemma_div_is_ordered((d * a) as int, (d * n) as int, n as int);
    assert(d * n / n == d) by (nonlinear_arith)
        requires
            n > 0,
    ;
}

} // verus!
