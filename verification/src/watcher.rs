//! The watcher's decoding policy: which decoded feed notifications become
//! trade events. The feed transport itself (subscriptions, reconnects)
//! lives with the caller; it hands the decoded fields in as plain values.

use vstd::prelude::*;
use crate::types::{Trade, TradeSide};

verus! {

/// One watcher task per tracked account, all feeding one shared queue.
pub struct WalletWatcher {
    pub ws_url: String,
    pub wallets: Vec<String>,
}

impl WalletWatcher {
    /// A watcher set for the given feed endpoint and tracked accounts.
    pub fn new(ws_url: String, wallets: Vec<String>) -> (w: Self)
        ensures
            w.ws_url == ws_url,
            w.wallets == wallets,
    {
        WalletWatcher { ws_url, wallets }
    }
}

/// The side named by a notification's side field; anything else is invalid.
pub open spec fn spec_side_of(s: Seq<char>) -> Option<TradeSide> {
    if s == "BUY"@ {
        Some(TradeSide::BUY)
    } else if s == "SELL"@ {
        Some(TradeSide::SELL)
    } else {
        None
    }
}

/// Assemble a trade event from the decoded fields of a feed notification:
/// only a notification of type `trade` whose required fields are all present
/// and whose side is `BUY` or `SELL` yields an event; anything malformed is
/// discarded. The transaction reference stays optional.
pub fn trade_from_parts(
    wallet: &str,
    event_type: &str,
    event_id: Option<String>,
    market_id: Option<String>,
    side: Option<String>,
    shares: Option<u64>,
    price: Option<u64>,
    timestamp: Option<i64>,
    tx_hash: Option<String>,
) -> (r: Option<Trade>)
    ensures
        match r {
            Some(t) => event_type@ == "trade"@ && t.wallet@ == wallet@ && event_id == Some(
                t.event_id,
            ) && market_id == Some(t.market_id) && (match side {
                Some(s) => spec_side_of(s@) == Some(t.side),
                None => false,
            }) && shares == Some(t.shares) && price == Some(t.price) && timestamp == Some(
                t.timestamp,
            ) && t.tx_hash == tx_hash,
            None => !(event_type@ == "trade"@ && event_id is Some && market_id is Some && (
            match side {
                Some(s) => spec_side_of(s@) is Some,
                None => false,
            }) && shares is Some && price is Some && timestamp is Some),
        },
{
    let et = event_type.to_owned();
    if !(et == "trade".to_owned()) {
        return None;
    }
    let side_val = match side {
        Some(s) => {
            if s == "BUY".to_owned() {
                TradeSide::BUY
            } else if s == "SELL".to_owned() {
                TradeSide::SELL
            } else {
                return None;
            }
        },
        None => {
            return None;
        },
    };
    let event_id_val = match event_id {
        Some(e) => e,
        None => {
            return None;
        },
    };
    let market_id_val = match market_id {
        Some(m) => m,
        None => {
            return None;
        },
    };
    let shares_val = match shares {
        Some(sh) => sh,
        None => {
            return None;
        },
    };
    let price_val = match price {
        Some(p) => p,
        None => {
            return None;
        },
    };
    let timestamp_val = match timestamp {
        Some(ts) => ts,
        None => {
            return None;
        },
    };
    Some(
        Trade {
            wallet: wallet.to_owned(),
            event_id: event_id_val,
            market_id: market_id_val,
            side: side_val,
            shares: shares_val,
            price: price_val,
            timestamp: timestamp_val,
            tx_hash,
        },
    )
}

} // verus!
