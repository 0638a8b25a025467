//! The trailing-stop decision engine: pure logic that, given the stored base
//! price and a new price observation, decides whether to trigger a sell and
//! computes the new (never lower) base price.

use vstd::prelude::*;

verus! {

/// One whole, in parts per million: the denominator of the trail fraction.
pub const PPM: u64 = 1_000_000;

/// The discounted floor a price observation proposes: the observed price with
/// the trail margin taken off, rounded down to a whole price unit.
pub open spec fn candidate_spec(price: int, trail_ppm: int) -> int {
    (price * (PPM - trail_ppm)) / (PPM as int)
}

/// A sell is triggered exactly when the observed price falls strictly below
/// the base price.
pub open spec fn trigger_spec(base: int, price: int) -> bool {
    price < base
}

/// The base price after an observation: the high-water mark of the stored
/// base price and the observation's discounted floor.
pub open spec fn new_base_spec(base: int, price: int, trail_ppm: int) -> int {
    vstd::math::max(base, candidate_spec(price, trail_ppm))
}

/// The outcome of one price observation: whether to liquidate, and the base
/// price to carry forward.
pub struct Decision {
    pub trigger: bool,
    pub new_base_price: u64,
}

/// The base price carried forward after a whole sequence of observations,
/// each ratcheting the base price of the one before.
pub open spec fn base_after(base: int, prices: Seq<u64>, trail_ppm: int) -> int
    decreases prices.len(),
{
    if prices.len() == 0 {
        base
    } else {
        base_after(new_base_spec(base, prices[0] as int, trail_ppm), prices.drop_first(), trail_ppm)
    }
}

/// A sequence of observations never lowers the base price.
pub proof fn lemma_base_after_ge(base: int, prices: Seq<u64>, trail_ppm: int)
    ensures
        base_after(base, prices, trail_ppm) >= base,
    decreases prices.len(),
{
    if prices.len() > 0 {
        lemma_base_after_ge(
            new_base_spec(base, prices[0] as int, trail_ppm),
            prices.drop_first(),
            trail_ppm,
        );
    }
}

/// Observations fold one at a time: handling a concatenation of two
/// observation sequences is handling the second from wherever the first left
/// the base price.
pub proof fn lemma_base_after_concat(base: int, s: Seq<u64>, t: Seq<u64>, trail_ppm: int)
    ensures
        base_after(base, s + t, trail_ppm) == base_after(base_after(base, s, trail_ppm), t, trail_ppm),
    decreases s.len(),
{
    if s.len() == 0 {
        assert(s + t =~= t);
    } else {
        assert((s + t).drop_first() =~= s.drop_first() + t);
        lemma_base_after_concat(
            new_base_spec(base, s[0] as int, trail_ppm),
            s.drop_first(),
            t,
            trail_ppm,
        );
    }
}

/// Monotonic ratchet: over any sequence of observed prices for one pool and
/// one trail margin, the stored base price is non-decreasing — after more
/// observations it is never lower than after fewer.
pub proof fn lemma_monotonic_ratchet(base: int, prices: Seq<u64>, trail_ppm: int, i: int, j: int)
    requires
        0 <= i <= j <= prices.len(),
    ensures
        base_after(base, prices.take(i), trail_ppm) <= base_after(base, prices.take(j), trail_ppm),
{
    assert(prices.take(j) =~= prices.take(i) + prices.subrange(i, j));
    lemma_base_after_concat(base, prices.take(i), prices.subrange(i, j), trail_ppm);
    lemma_base_after_ge(base_after(base, prices.take(i), trail_ppm), prices.subrange(i, j), trail_ppm);
}

/// With no recorded base price (a floor of zero), no non-negative observed
/// price ever triggers a sell.
pub proof fn lemma_no_trigger_without_history(price: int)
    requires
        0 <= price,
    ensures
        !trigger_spec(0, price),
{
}

/// Redelivering an observation after its base price was persisted is stable:
/// deciding again from the already-updated base price leaves the base price
/// unchanged, and an observation that did not trigger does not trigger on
/// redelivery either.
pub proof fn lemma_redelivery_stable(base: int, price: int, trail_ppm: int)
    requires
        0 <= base,
        0 <= price,
        0 <= trail_ppm <= PPM,
    ensures
        new_base_spec(new_base_spec(base, price, trail_ppm), price, trail_ppm)
            == new_base_spec(base, price, trail_ppm),
        !trigger_spec(base, price) ==> !trigger_spec(new_base_spec(base, price, trail_ppm), price),
{
    lemma_candidate_le_price(price, trail_ppm);
}

/// The discounted floor never exceeds the observed price, and is never
/// negative.
pub proof fn lemma_candidate_le_price(price: int, trail_ppm: int)
    requires
        0 <= price,
        0 <= trail_ppm <= PPM,
    ensures
        0 <= candidate_spec(price, trail_ppm) <= price,
{
    let keep = PPM - trail_ppm;
    vstd::arithmetic::mul::lemma_mul_nonnegative(price, keep);
    vstd::arithmetic::div_mod::lemma_div_pos_is_pos(price * keep, PPM as int);
    assert(price * keep <= price * (PPM as int)) by (nonlinear_arith)
        requires
            0 <= price,
            0 <= keep <= PPM,
    ;
    vstd::arithmetic::div_mod::lemma_div_is_ordered(
        price * keep,
        price * (PPM as int),
        PPM as int,
    );
    vstd::arithmetic::div_mod::lemma_div_by_multiple(price, PPM as int);
}

/// Decide one observation: trigger iff `observed_price` is strictly below
/// `base_price`, and ratchet the base price up to the high-water mark of the
/// old base price and the discounted observed price.
pub fn decide(base_price: u64, observed_price: u64, trail_ppm: u64) -> (d: Decision)
    requires
        trail_ppm <= PPM,
    ensures
        d.trigger == trigger_spec(base_price as int, observed_price as int),
        d.new_base_price == new_base_spec(base_price as int, observed_price as int, trail_ppm as int),
        d.new_base_price >= base_price,
{
    let keep: u64 = PPM - trail_ppm;
    proof {
        assert((observed_price as int) * (keep as int) <= (u64::MAX as int) * (PPM as int))
            by (nonlinear_arith)
            requires
                observed_price <= u64::MAX,
                0 <= keep <= PPM,
        ;
    }
    let wide: u128 = (observed_price as u128) * (keep as u128);
    let cand_wide: u128 = wide / (PPM as u128);
    proof {
        lemma_candidate_le_price(observed_price as int, trail_ppm as int);
    }
    let candidate: u64 = cand_wide as u64;
    let new_base_price: u64 = if candidate > base_price {
        candidate
    } else {
        base_price
    };
    Decision { trigger: observed_price < base_price, new_base_price }
}

} // verus!
