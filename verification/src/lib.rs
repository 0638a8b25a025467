//! Trailing-stop-loss decision engine for an automated sell strategy.
//!
//! The library tracks, per liquidity pool, a high-water "base price" that
//! only ratchets upward as the observed price rises, decides on each price
//! observation whether the price has retraced far enough below that floor to
//! trigger liquidation, and constructs the resulting sell orders with a
//! bounded validity window.
//!
//! Prices are fixed-point values: a whole number of price units. The trail
//! margin is a fraction expressed in parts per million, so that the
//! discounted candidate floor `price * (1 - trail)` is exact integer
//! arithmetic.

pub mod engine;
pub mod handler;
pub mod keys;
pub mod order;
