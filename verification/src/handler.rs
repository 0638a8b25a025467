//! The price-update handler: for one incoming observation, decide from the
//! stored base price whether to trigger, build the sell orders for every
//! managed position on the pool, and say what (if anything) to persist.
//!
//! The handler itself performs no I/O: the host reads the stored base price
//! and hands it in, submits the planned orders, persists the planned update,
//! and acknowledges the observation from the submission outcomes.

use vstd::prelude::*;
use crate::engine::{decide, new_base_spec, trigger_spec, Decision, PPM};
use crate::order::{build_sell_order, is_sell_order_for, AssetId, Position, SwapOrder, TRAIL_WINDOW_MS};

verus! {

/// The strategy's configuration, as the decision logic reads it: the asset
/// sold on trigger, the asset bought, and the trail margin in parts per
/// million.
pub struct Config {
    pub give_token: AssetId,
    pub receive_token: AssetId,
    pub trail_ppm: u64,
}

impl Config {
    /// A well-formed configuration: the trail margin is a fraction of one.
    pub open spec fn wf(&self) -> bool {
        self.trail_ppm <= PPM
    }
}

/// A stored base price, with an absent record read as a floor of zero:
/// no prior history, so any positive price counts as a new high.
pub open spec fn stored_or_zero(stored: Option<u64>) -> u64 {
    match stored {
        Option::Some(b) => b,
        Option::None => 0,
    }
}

/// Everything one observation asks of the host: the decision taken, the sell
/// orders to submit (one per managed position when triggered, none
/// otherwise), and the base price to persist, if it changed.
pub struct Plan {
    pub decision: Decision,
    pub orders: Vec<SwapOrder>,
    pub base_price_update: Option<u64>,
}

/// Handle one price observation for a pool: decide from the stored base
/// price, build a sell order per position when triggered, and report the new
/// base price exactly when it differs from the stored one.
pub fn plan_observation(
    config: &Config,
    stored_base: Option<u64>,
    observed_price: u64,
    now: u64,
    positions: &Vec<Position>,
) -> (plan: Plan)
    requires
        config.wf(),
        TRAIL_WINDOW_MS <= now,
        now + TRAIL_WINDOW_MS <= u64::MAX,
    ensures
        plan.decision.trigger == trigger_spec(
            stored_or_zero(stored_base) as int,
            observed_price as int,
        ),
        plan.decision.new_base_price == new_base_spec(
            stored_or_zero(stored_base) as int,
            observed_price as int,
            config.trail_ppm as int,
        ),
        plan.base_price_update == (if plan.decision.new_base_price != stored_or_zero(stored_base) {
            Option::Some(plan.decision.new_base_price)
        } else {
            Option::<u64>::None
        }),
        plan.decision.trigger ==> plan.orders.len() == positions.len(),
        plan.decision.trigger ==> forall|i: int|
            0 <= i < positions.len() ==> is_sell_order_for(
                #[trigger] plan.orders[i],
                config.give_token,
                config.receive_token,
                positions[i].give_balance,
                now,
                TRAIL_WINDOW_MS,
            ),
        !plan.decision.trigger ==> plan.orders.len() == 0,
{
    let base_price: u64 = match stored_base {
        Option::Some(b) => b,
        Option::None => 0,
    };
    let decision = decide(base_price, observed_price, config.trail_ppm);
    let mut orders: Vec<SwapOrder> = Vec::new();
    if decision.trigger {
        let mut i: usize = 0;
        while i < positions.len()
            invariant
                i <= positions.len(),
                orders.len() == i,
                TRAIL_WINDOW_MS <= now,
                now + TRAIL_WINDOW_MS <= u64::MAX,
                forall|j: int|
                    0 <= j < i ==> is_sell_order_for(
                        #[trigger] orders[j],
                        config.give_token,
                        config.receive_token,
                        positions[j].give_balance,
                        now,
                        TRAIL_WINDOW_MS,
                    ),
            decreases positions.len() - i,
        {
            let order = build_sell_order(
                &positions[i],
                &config.give_token,
                &config.receive_token,
                now,
                TRAIL_WINDOW_MS,
            );
            orders.push(order);
            i = i + 1;
        }
    }
    let base_price_update: Option<u64> = if decision.new_base_price != base_price {
        Option::Some(decision.new_base_price)
    } else {
        Option::None
    };
    Plan { decision, orders, base_price_update }
}

/// The acknowledgment for one handled observation: success exactly when
/// every step — here, every order submission the host attempted — succeeded.
/// One failed submission makes the whole observation report failure, but
/// never prevents the sibling submissions or the base-price update.
pub fn observation_ack(submissions: &Vec<bool>) -> (ok: bool)
    ensures
        ok == forall|i: int| 0 <= i < submissions.len() ==> submissions[i],
{
    let mut i: usize = 0;
    let mut ok: bool = true;
    while i < submissions.len()
        invariant
            i <= submissions.len(),
            ok == forall|j: int| 0 <= j < i ==> submissions[j],
        decreases submissions.len() - i,
    {
        if !submissions[i] {
            ok = false;
        }
        i = i + 1;
    }
    ok
}

} // verus!
