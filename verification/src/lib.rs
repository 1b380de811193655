//! Decision-and-safety core of a copy-trading bot for a prediction-market
//! exchange: position sizing, risk gating with a circuit breaker, the retry
//! policy of the order executor, and the per-event orchestration rules.
//!
//! All monetary quantities (stakes, balances, volumes, exposure) and all
//! prices and share counts are fixed-point integers in micro-units:
//! `1_000_000` micro-units stand for one USD, one share, or a price of 1.0.
//! Divisions in the specifications floor, as the executable code does.

use vstd::prelude::*;

pub mod types;
pub mod config;
pub mod sizing;
pub mod exposure;
pub mod risk;
pub mod executor;
pub mod orchestrator;
pub mod watcher;

verus! {

/// Micro-units per whole unit of USD, shares, or price.
pub const MICRO: u64 = 1_000_000;

/// A value clamped into the inclusive interval `[lo, hi]`, applying the
/// lower bound first (so `lo` wins when `lo > hi`).
pub open spec fn spec_clamp(v: int, lo: int, hi: int) -> int {
    let raised = if v < lo { lo } else { v };
    if raised > hi { hi } else { raised }
}

/// Clamp `v` into `[lo, hi]`, lower bound first.
pub fn clamp_u64(v: u64, lo: u64, hi: u64) -> (r: u64)
    ensures
        r == spec_clamp(v as int, lo as int, hi as int),
{
    let raised = if v < lo { lo } else { v };
    if raised > hi { hi } else { raised }
}

} // verus!
