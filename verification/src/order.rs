//! Construction of the sell order emitted when the trailing stop triggers:
//! the position's whole balance of the give asset is offered, a floor of one
//! unit of the receive asset guards against zero execution, and a validity
//! window bounds how long the order stays executable.

use vstd::prelude::*;

verus! {

/// How long, in milliseconds, a constructed order stays executable on either
/// side of the observation time: twenty minutes.
pub const TRAIL_WINDOW_MS: u64 = 1_200_000;

/// An on-chain asset: a minting policy and an asset name under it.
pub struct AssetId {
    pub policy_id: Vec<u8>,
    pub asset_name: Vec<u8>,
}

/// An amount of one asset.
pub struct AssetAmount {
    pub policy_id: Vec<u8>,
    pub asset_name: Vec<u8>,
    pub amount: u64,
}

/// The inclusive time window during which an order may execute.
pub struct ValidityRange {
    pub not_before: u64,
    pub not_after: u64,
}

/// A managed position, seen through what the engine reads of it: the balance
/// of the give asset held by the position's backing funds.
pub struct Position {
    pub give_balance: u64,
}

/// A sell (swap) order: what is offered, the least that must be received,
/// and when the order may execute.
pub struct SwapOrder {
    pub offer: AssetAmount,
    pub min_received: AssetAmount,
    pub validity_range: ValidityRange,
}

/// What the sell order for a position must look like: the position's whole
/// give-asset balance offered, a minimum of one unit of the receive asset,
/// and a validity window of `window_ms` on either side of `now`.
pub open spec fn is_sell_order_for(
    o: SwapOrder,
    give: AssetId,
    receive: AssetId,
    give_balance: u64,
    now: u64,
    window_ms: u64,
) -> bool {
    &&& o.offer.policy_id@ == give.policy_id@
    &&& o.offer.asset_name@ == give.asset_name@
    &&& o.offer.amount == give_balance
    &&& o.min_received.policy_id@ == receive.policy_id@
    &&& o.min_received.asset_name@ == receive.asset_name@
    &&& o.min_received.amount == 1
    &&& o.validity_range.not_before == now - window_ms
    &&& o.validity_range.not_after == now + window_ms
}

/// An exact copy of a byte string.
fn clone_bytes(v: &Vec<u8>) -> (r: Vec<u8>)
    ensures
        r@ == v@,
{
    let mut r: Vec<u8> = Vec::new();
    let mut i: usize = 0;
    while i < v.len()
        invariant
            i <= v.len(),
            r@ == v@.take(i as int),
        decreases v.len() - i,
    {
        r.push(v[i]);
        proof {
            assert(r@ =~= v@.take(i + 1 as int));
        }
        i = i + 1;
    }
    proof {
        assert(v@.take(v@.len() as int) =~= v@);
    }
    r
}

/// Build the sell order for one triggered position: offer its entire
/// give-asset balance, demand at least one unit of the receive asset, and
/// allow execution for `window_ms` on either side of the observation time.
pub fn build_sell_order(
    position: &Position,
    give: &AssetId,
    receive: &AssetId,
    now: u64,
    window_ms: u64,
) -> (o: SwapOrder)
    requires
        window_ms <= now,
        now + window_ms <= u64::MAX,
    ensures
        is_sell_order_for(o, *give, *receive, position.give_balance, now, window_ms),
        o.validity_range.not_after - o.validity_range.not_before == 2 * window_ms,
        o.validity_range.not_before + o.validity_range.not_after == 2 * now,
{
    SwapOrder {
        offer: AssetAmount {
            policy_id: clone_bytes(&give.policy_id),
            asset_name: clone_bytes(&give.asset_name),
            amount: position.give_balance,
        },
        min_received: AssetAmount {
            policy_id: clone_bytes(&receive.policy_id),
            asset_name: clone_bytes(&receive.asset_name),
            amount: 1,
        },
        validity_range: ValidityRange { not_before: now - window_ms, not_after: now + window_ms },
    }
}

} // verus!
