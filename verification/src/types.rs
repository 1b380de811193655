//! Data model of the trading core.
//!
//! Quantities are fixed-point integers in micro-units (see [`crate::MICRO`]):
//! `shares`, prices, balances, stakes, volumes and exposure are all counted
//! in millionths of their unit.

use vstd::prelude::*;

verus! {

/// Side of an observed or submitted trade.
#[derive(Clone, Copy, PartialEq, Eq, Structural, Debug)]
pub enum TradeSide {
    BUY,
    SELL,
}

/// How an order rests (or does not rest) on the exchange's book.
#[derive(Clone, Copy, PartialEq, Eq, Structural, Debug)]
pub enum OrderType {
    MARKET,
    LIMIT,
    /// Fill-And-Kill: execute immediately for what is available, cancel the rest.
    FAK,
    /// Good-Till-Date: rest on the book until filled or expired.
    GTD,
}

/// The exchange's adjudication of an order, reduced to the small fixed
/// vocabulary the retry policy distinguishes. Every status that is neither
/// a fill nor a terminal rejection counts as still pending.
#[derive(Clone, Copy, PartialEq, Eq, Structural, Debug)]
pub enum OrderStatus {
    Filled,
    PartiallyFilled,
    Cancelled,
    Rejected,
    Pending,
}

/// Position-sizing policy, selected once at startup.
#[derive(Clone, Copy, PartialEq, Eq, Structural, Debug)]
pub enum SizingMode {
    Fixed,
    Proportional,
    TierBased,
}

/// A trade observed from a tracked account. Immutable once constructed.
#[derive(Clone, Debug)]
pub struct Trade {
    pub wallet: String,
    pub event_id: String,
    pub market_id: String,
    pub side: TradeSide,
    /// Micro-shares; an observed trade always has a positive quantity.
    pub shares: u64,
    /// Micro-USD per share.
    pub price: u64,
    pub timestamp: i64,
    pub tx_hash: Option<String>,
}

/// Point-in-time market facts, fetched fresh per decision.
#[derive(Clone, Debug)]
pub struct Market {
    pub id: String,
    pub event_id: String,
    pub question: String,
    pub yes_price: u64,
    pub no_price: u64,
    /// USD-equivalent depth proxy, in micro-USD.
    pub liquidity: u64,
    pub volume_24h: u64,
}

/// A held position; profit and loss may be negative.
#[derive(Clone, Debug)]
pub struct Position {
    pub market_id: String,
    pub side: TradeSide,
    pub shares: u64,
    pub avg_price: u64,
    pub current_price: u64,
    pub pnl: i64,
    pub timestamp: i64,
}

/// An order as handed to the exchange. `price: None` means a market order.
#[derive(Clone, Debug)]
pub struct OrderRequest {
    pub market_id: String,
    pub side: TradeSide,
    pub shares: u64,
    pub price: Option<u64>,
    pub order_type: OrderType,
}

/// The exchange's answer to one submission attempt.
#[derive(Debug)]
pub struct OrderResponse {
    pub order_id: String,
    pub status: OrderStatus,
    pub filled_shares: u64,
    pub avg_fill_price: u64,
}

impl Clone for OrderResponse {
    fn clone(&self) -> (r: Self)
        ensures
            r == *self,
    {
        OrderResponse {
            order_id: self.order_id.clone(),
            status: self.status,
            filled_shares: self.filled_shares,
            avg_fill_price: self.avg_fill_price,
        }
    }
}

/// Mutable circuit-breaker counters; one instance per risk manager.
pub struct CircuitBreakerState {
    pub consecutive_errors: u32,
    pub total_trades_today: u32,
    /// Micro-USD committed today; monotone within a day.
    pub total_volume_today: u64,
    /// One-way latch: set when consecutive errors reach the trigger,
    /// cleared only by an explicit breaker reset.
    pub is_tripped: bool,
    pub trip_reason: Option<String>,
}

impl Clone for CircuitBreakerState {
    fn clone(&self) -> (r: Self)
        ensures
            r == *self,
    {
        CircuitBreakerState {
            consecutive_errors: self.consecutive_errors,
            total_trades_today: self.total_trades_today,
            total_volume_today: self.total_volume_today,
            is_tripped: self.is_tripped,
            trip_reason: match &self.trip_reason {
                Some(reason) => Some(reason.clone()),
                None => None,
            },
        }
    }
}

/// Validated process configuration; immutable for the process lifetime.
#[derive(Clone, Debug)]
pub struct Config {
    pub wallets_to_track: Vec<String>,
    pub your_wallet: String,
    pub private_key: String,
    pub polymarket_api: String,
    pub ws_url: String,
    pub rpc_url: String,
    pub sizing_mode: SizingMode,
    pub fixed_stake: u64,
    /// Micro-scaled ratio: `MICRO` stands for 1.0.
    pub proportional_ratio: u64,
    pub min_stake: u64,
    pub max_stake: u64,
    pub max_exposure_per_event: u64,
    pub max_daily_volume: u64,
    pub min_liquidity: u64,
    pub cb_consecutive_trigger: u32,
    pub cb_min_depth_usd: u64,
    pub retry_attempts: u32,
    pub retry_delay_ms: u64,
}

impl Default for Config {
    /// Defaults: a 25 USD fixed stake in `[5, 100]`, a 0.02 proportional
    /// ratio, 500 USD exposure per event, 2000 USD daily volume, 1000 USD
    /// minimum liquidity, a 100 USD depth floor, a breaker trigger of 3,
    /// and 4 attempts spaced from 500 ms.
    fn default() -> (c: Self)
        ensures
            c.wallets_to_track@ =~= Seq::<String>::empty(),
            c.your_wallet@ =~= Seq::<char>::empty(),
            c.private_key@ =~= Seq::<char>::empty(),
            c.polymarket_api@ =~= Seq::<char>::empty(),
            c.ws_url@ =~= Seq::<char>::empty(),
            c.rpc_url@ =~= Seq::<char>::empty(),
            c.sizing_mode == SizingMode::Fixed,
            c.fixed_stake == 25 * crate::MICRO,
            c.proportional_ratio == crate::MICRO / 50,
            c.min_stake == 5 * crate::MICRO,
            c.max_stake == 100 * crate::MICRO,
            c.max_exposure_per_event == 500 * crate::MICRO,
            c.max_daily_volume == 2000 * crate::MICRO,
            c.min_liquidity == 1000 * crate::MICRO,
            c.cb_consecutive_trigger == 3,
            c.cb_min_depth_usd == 100 * crate::MICRO,
            c.retry_attempts == 4,
            c.retry_delay_ms == 500,
    {
        Config {
            wallets_to_track: Vec::new(),
            your_wallet: String::new(),
            private_key: String::new(),
            polymarket_api: String::new(),
            ws_url: String::new(),
            rpc_url: String::new(),
            sizing_mode: SizingMode::Fixed,
            fixed_stake: 25 * crate::MICRO,
            proportional_ratio: crate::MICRO / 50,
            min_stake: 5 * crate::MICRO,
            max_stake: 100 * crate::MICRO,
            max_exposure_per_event: 500 * crate::MICRO,
            max_daily_volume: 2000 * crate::MICRO,
            min_liquidity: 1000 * crate::MICRO,
            cb_consecutive_trigger: 3,
            cb_min_depth_usd: 100 * crate::MICRO,
            retry_attempts: 4,
            retry_delay_ms: 500,
        }
    }
}

} // verus!
