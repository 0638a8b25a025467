// Handler, order-construction and store-key tests.

use trailing_stop::handler::{observation_ack, plan_observation, Config};
use trailing_stop::keys::{base_price_key, pool_base_price_key};
use trailing_stop::order::{build_sell_order, AssetId, Position, TRAIL_WINDOW_MS};

fn test_config() -> Config {
    Config {
        give_token: AssetId { policy_id: vec![0x11, 0x22], asset_name: vec![0x41] },
        receive_token: AssetId { policy_id: vec![], asset_name: vec![] },
        trail_ppm: 100_000,
    }
}

#[test]
fn validity_window_is_symmetric_around_now() {
    let position = Position { give_balance: 42 };
    let give = AssetId { policy_id: vec![1], asset_name: vec![2] };
    let receive = AssetId { policy_id: vec![3], asset_name: vec![4] };
    let now: u64 = 1_700_000_000_000;
    let order = build_sell_order(&position, &give, &receive, now, TRAIL_WINDOW_MS);
    assert_eq!(order.validity_range.not_before, now - 1_200_000);
    assert_eq!(order.validity_range.not_after, now + 1_200_000);
    assert_eq!(
        order.validity_range.not_after - order.validity_range.not_before,
        2 * TRAIL_WINDOW_MS
    );
    assert_eq!(order.offer.policy_id, vec![1]);
    assert_eq!(order.offer.asset_name, vec![2]);
    assert_eq!(order.offer.amount, 42);
    assert_eq!(order.min_received.policy_id, vec![3]);
    assert_eq!(order.min_received.asset_name, vec![4]);
    assert_eq!(order.min_received.amount, 1);
}

#[test]
fn zero_balance_order_passes_through() {
    // A position with nothing to sell still yields a (degenerate) order.
    let position = Position { give_balance: 0 };
    let give = AssetId { policy_id: vec![], asset_name: vec![] };
    let receive = AssetId { policy_id: vec![], asset_name: vec![] };
    let order = build_sell_order(&position, &give, &receive, 2_000_000, TRAIL_WINDOW_MS);
    assert_eq!(order.offer.amount, 0);
}

#[test]
fn plan_without_trigger_builds_no_orders() {
    let config = test_config();
    let positions = vec![Position { give_balance: 500 }];
    let plan = plan_observation(&config, None, 100, 10_000_000, &positions);
    assert!(!plan.decision.trigger);
    assert!(plan.orders.is_empty());
    assert_eq!(plan.base_price_update, Some(90));
}

#[test]
fn plan_on_trigger_builds_one_order_per_position() {
    let config = test_config();
    let positions = vec![Position { give_balance: 500 }, Position { give_balance: 700 }];
    let plan = plan_observation(&config, Some(90), 80, 10_000_000, &positions);
    assert!(plan.decision.trigger);
    assert_eq!(plan.orders.len(), 2);
    assert_eq!(plan.orders[0].offer.amount, 500);
    assert_eq!(plan.orders[1].offer.amount, 700);
    assert_eq!(plan.orders[0].offer.policy_id, vec![0x11, 0x22]);
    assert_eq!(plan.orders[1].min_received.amount, 1);
    assert_eq!(plan.orders[1].validity_range.not_before, 10_000_000 - 1_200_000);
    assert_eq!(plan.orders[1].validity_range.not_after, 10_000_000 + 1_200_000);
    // A triggering price only discounts below the floor, so the floor stays.
    assert_eq!(plan.base_price_update, None);
}

#[test]
fn plan_reports_update_only_on_change() {
    let config = test_config();
    let positions: Vec<Position> = vec![];
    let unchanged = plan_observation(&config, Some(108), 120, 10_000_000, &positions);
    assert_eq!(unchanged.base_price_update, None);
    let changed = plan_observation(&config, Some(90), 120, 10_000_000, &positions);
    assert_eq!(changed.base_price_update, Some(108));
}

#[test]
fn partial_submission_failure_fails_ack_but_not_the_plan() {
    // Two positions on one pool: one submission fails, one succeeds. The
    // handler reports failure for the observation, while the orders and the
    // base-price update were already planned independently of the outcomes.
    let config = test_config();
    let positions = vec![Position { give_balance: 500 }, Position { give_balance: 700 }];
    let plan = plan_observation(&config, Some(90), 80, 10_000_000, &positions);
    assert_eq!(plan.orders.len(), 2);
    let outcomes = vec![false, true];
    assert!(!observation_ack(&outcomes));
    assert!(observation_ack(&vec![true, true]));
}

#[test]
fn empty_ack_succeeds() {
    assert!(observation_ack(&vec![]));
}

#[test]
fn base_price_key_prefixes_the_identifier() {
    let key = base_price_key(&String::from("abcd"));
    assert_eq!(key, "base_price:abcd");
}

#[test]
fn pool_key_hex_encodes_the_identifier() {
    let key = pool_base_price_key(&vec![0xab, 0xcd, 0x01, 0x5f]);
    assert_eq!(key, "base_price:abcd015f");
}

#[test]
fn pool_key_of_empty_identifier_is_bare_prefix() {
    let key = pool_base_price_key(&vec![]);
    assert_eq!(key, "base_price:");
}
