//! Verified core of a cross-chain USDC relay fee engine.
//!
//! The crate computes relay fees for transfers that move USDC to another
//! chain through a burn-and-mint bridge.  It contains the tri-state checked
//! arithmetic pipeline, the per-platform execution cost model, the
//! fee-adjustment policy, the price-oracle conversions, the off-chain quote
//! signature check, and the corridor-selection state machine that decides
//! how much a transfer costs and how it is charged.  The surrounding host
//! (account handling, token transfers, bridge calls) lives outside of this
//! crate and hands it plain values.

pub mod error;
pub mod checked;
pub mod utils;
pub mod state;
pub mod encoding;
pub mod config;
pub mod prices;
pub mod quote;
pub mod transfer;
