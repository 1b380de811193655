//! Order construction and the retry policy of the executor: which order type
//! each side gets, how an attempt's outcome is judged, and how transient
//! failures are retried with linear backoff while terminal exchange verdicts
//! fail immediately.

use vstd::prelude::*;
use crate::types::{Config, OrderRequest, OrderResponse, OrderStatus, OrderType, Trade, TradeSide};
use crate::MICRO;
use vstd::arithmetic::mul::lemma_mul_inequality;

verus! {

/// How one submission attempt ended, before the retry policy judges it.
#[derive(Debug)]
pub enum AttemptOutcome {
    /// The exchange answered this attempt.
    Response(OrderResponse),
    /// The transport or the API failed; carries the error message.
    Transport(String),
}

/// Why an execution failed.
#[derive(Debug)]
pub enum ExecutionError {
    /// The exchange adjudicated the order (cancelled or rejected); retrying
    /// would duplicate intent.
    Terminal { status: OrderStatus, order_id: String },
    /// Every attempt ended transiently; carries the attempt count and the
    /// last transport error seen, if any.
    Exhausted { attempts: u32, last_transport: Option<String> },
    /// A market order cannot be priced at price 0.
    InvalidPrice,
}

/// A status that ends the retry loop successfully.
pub open spec fn is_success_status(s: OrderStatus) -> bool {
    s == OrderStatus::Filled || s == OrderStatus::PartiallyFilled
}

/// A status adjudicated by the exchange: never retried.
pub open spec fn is_terminal_status(s: OrderStatus) -> bool {
    s == OrderStatus::Cancelled || s == OrderStatus::Rejected
}

/// An outcome the policy treats as transient: a still-pending response or
/// any transport failure.
pub open spec fn is_transient(oc: AttemptOutcome) -> bool {
    match oc {
        AttemptOutcome::Response(resp) => !is_success_status(resp.status) && !is_terminal_status(
            resp.status,
        ),
        AttemptOutcome::Transport(_) => true,
    }
}

/// The exchange's status vocabulary, as the wire spells it; anything else
/// counts as still pending.
pub open spec fn spec_order_status(s: Seq<char>) -> OrderStatus {
    if s == "filled"@ {
        OrderStatus::Filled
    } else if s == "partially_filled"@ {
        OrderStatus::PartiallyFilled
    } else if s == "cancelled"@ {
        OrderStatus::Cancelled
    } else if s == "rejected"@ {
        OrderStatus::Rejected
    } else {
        OrderStatus::Pending
    }
}

/// Parse a wire status string into the fixed vocabulary.
pub fn parse_order_status(s: &str) -> (r: OrderStatus)
    ensures
        r == spec_order_status(s@),
{
    let owned = s.to_owned();
    if owned == "filled".to_owned() {
        OrderStatus::Filled
    } else if owned == "partially_filled".to_owned() {
        OrderStatus::PartiallyFilled
    } else if owned == "cancelled".to_owned() {
        OrderStatus::Cancelled
    } else if owned == "rejected".to_owned() {
        OrderStatus::Rejected
    } else {
        OrderStatus::Pending
    }
}

/// Buys go out Fill-And-Kill (no resting exposure), sells Good-Till-Date
/// (let the close work through).
pub open spec fn spec_order_type_for_side(side: TradeSide) -> OrderType {
    match side {
        TradeSide::BUY => OrderType::FAK,
        TradeSide::SELL => OrderType::GTD,
    }
}

/// The side that closes a position opened on `side`.
pub open spec fn spec_opposite_side(side: TradeSide) -> TradeSide {
    match side {
        TradeSide::BUY => TradeSide::SELL,
        TradeSide::SELL => TradeSide::BUY,
    }
}

/// Best available quote for `side`: the first ask when buying, the first bid
/// when selling, and a neutral 0.5 when that book side is empty — callers
/// must treat the fallback as unknown, not as a real quote.
pub open spec fn spec_estimated_price(
    bids: Seq<(u64, u64)>,
    asks: Seq<(u64, u64)>,
    side: TradeSide,
) -> int {
    match side {
        TradeSide::BUY => if asks.len() == 0 {
            (MICRO / 2) as int
        } else {
            asks[0].0 as int
        },
        TradeSide::SELL => if bids.len() == 0 {
            (MICRO / 2) as int
        } else {
            bids[0].0 as int
        },
    }
}

/// Whether `status` ends the retry loop as a success.
pub fn status_is_success(status: OrderStatus) -> (r: bool)
    ensures
        r == is_success_status(status),
{
    status == OrderStatus::Filled || status == OrderStatus::PartiallyFilled
}

/// Whether `status` is an exchange adjudication that must not be retried.
pub fn status_is_terminal(status: OrderStatus) -> (r: bool)
    ensures
        r == is_terminal_status(status),
{
    status == OrderStatus::Cancelled || status == OrderStatus::Rejected
}

/// The linear backoff before the attempt after `attempt`: `delay_ms` times
/// the attempt number, saturating at the largest representable wait.
pub fn backoff_delay_ms(delay_ms: u64, attempt: u32) -> (r: u64)
    ensures
        r == if (delay_ms as int) * (attempt as int) > u64::MAX {
            u64::MAX as int
        } else {
            (delay_ms as int) * (attempt as int)
        },
{
    match delay_ms.checked_mul(attempt as u64) {
        Some(v) => v,
        None => u64::MAX,
    }
}

/// The transport message to remember after an outcome: a transport error
/// replaces the previous one, a response keeps it.
pub open spec fn spec_transient_message(oc: AttemptOutcome, last: Option<String>) -> Option<
    String,
> {
    match oc {
        AttemptOutcome::Response(_) => last,
        AttemptOutcome::Transport(m) => Some(m),
    }
}

/// Result and backoff sleeps of the retry loop from attempt `k` (1-based)
/// on, with `last` the transport error remembered so far: a successful
/// response returns it, a terminal one fails immediately, anything else is
/// transient — it either exhausts the attempt budget or sleeps
/// `delay * k` and goes on.
pub open spec fn spec_retry_from(
    outcomes: Seq<AttemptOutcome>,
    attempts: int,
    delay: int,
    k: int,
    last: Option<String>,
) -> (Result<OrderResponse, ExecutionError>, Seq<u64>)
    decreases attempts - k, 1int,
{
    let oc = outcomes[k - 1];
    match oc {
        AttemptOutcome::Response(resp) => if is_success_status(resp.status) {
            (Ok(resp), Seq::empty())
        } else if is_terminal_status(resp.status) {
            (Err(ExecutionError::Terminal { status: resp.status, order_id: resp.order_id }),
            Seq::empty())
        } else {
            spec_retry_transient(outcomes, attempts, delay, k, last)
        },
        AttemptOutcome::Transport(m) => spec_retry_transient(outcomes, attempts, delay, k, Some(m)),
    }
}

/// The transient continuation of `spec_retry_from`.
pub open spec fn spec_retry_transient(
    outcomes: Seq<AttemptOutcome>,
    attempts: int,
    delay: int,
    k: int,
    last: Option<String>,
) -> (Result<OrderResponse, ExecutionError>, Seq<u64>)
    decreases attempts - k, 0int,
{
    if k >= attempts {
        (Err(ExecutionError::Exhausted { attempts: attempts as u32, last_transport: last }),
        Seq::empty())
    } else {
        let rest = spec_retry_from(outcomes, attempts, delay, k + 1, last);
        (rest.0, seq![(delay * k) as u64].add(rest.1))
    }
}

/// The whole retry policy over a sequence of attempt outcomes.
pub open spec fn spec_retry(
    outcomes: Seq<AttemptOutcome>,
    attempts: int,
    delay: int,
) -> (Result<OrderResponse, ExecutionError>, Seq<u64>) {
    spec_retry_from(outcomes, attempts, delay, 1, None)
}

/// Builds order requests and judges submission attempts; the transport that
/// carries them to the exchange lives with the caller.
pub struct TradeExecutor {
    pub config: Config,
}

impl TradeExecutor {
    pub fn new(config: Config) -> (e: Self)
        ensures
            e.config == config,
    {
        TradeExecutor { config }
    }

    /// The mirroring order for an observed trade: same market, same side,
    /// the observed price as limit, Fill-And-Kill for buys and
    /// Good-Till-Date for sells.
    pub fn order_for_trade(&self, trade: &Trade, shares: u64) -> (o: OrderRequest)
        ensures
            o.market_id@ == trade.market_id@,
            o.side == trade.side,
            o.shares == shares,
            o.price == Some(trade.price),
            o.order_type == spec_order_type_for_side(trade.side),
    {
        let order_type = match trade.side {
            TradeSide::BUY => OrderType::FAK,
            TradeSide::SELL => OrderType::GTD,
        };
        OrderRequest {
            market_id: trade.market_id.clone(),
            side: trade.side,
            shares,
            price: Some(trade.price),
            order_type,
        }
    }

    /// A market order worth `usd_amount` at the trade's price: the share
    /// count is `usd_amount / price`; a price of 0 is refused.
    pub fn market_order_for(&self, trade: &Trade, usd_amount: u64) -> (r: Result<
        OrderRequest,
        ExecutionError,
    >)
        requires
            trade.price > 0 ==> (usd_amount as int) * (MICRO as int) / (trade.price as int)
                <= u64::MAX,
        ensures
            match r {
                Ok(o) => trade.price > 0 && o.market_id@ == trade.market_id@ && o.side
                    == trade.side && o.shares == (usd_amount as int) * (MICRO as int) / (
                trade.price as int) && o.price is None && o.order_type == OrderType::MARKET,
                Err(e) => trade.price == 0 && e is InvalidPrice,
            },
    {
        if trade.price == 0 {
            return Err(ExecutionError::InvalidPrice);
        }
        proof {
            crate::sizing::lemma_u64_mul_fits(usd_amount as int, MICRO as int);
        }
        let shares = ((usd_amount as u128) * (MICRO as u128) / (trade.price as u128)) as u64;
        Ok(
            OrderRequest {
                market_id: trade.market_id.clone(),
                side: trade.side,
                shares,
                price: None,
                order_type: OrderType::MARKET,
            },
        )
    }

    /// The market order that closes a position: the opposite side, same size.
    pub fn closing_order(&self, market_id: &str, shares: u64, side: TradeSide) -> (o: OrderRequest)
        ensures
            o.market_id@ == market_id@,
            o.side == spec_opposite_side(side),
            o.shares == shares,
            o.price is None,
            o.order_type == OrderType::MARKET,
    {
        let close_side = match side {
            TradeSide::BUY => TradeSide::SELL,
            TradeSide::SELL => TradeSide::BUY,
        };
        OrderRequest {
            market_id: market_id.to_owned(),
            side: close_side,
            shares,
            price: None,
            order_type: OrderType::MARKET,
        }
    }

    /// Best quote for `side` from an order book whose sides come best-first;
    /// 0.5 (in micro-units) when that side is empty.
    pub fn estimated_price(&self, bids: &Vec<(u64, u64)>, asks: &Vec<(u64, u64)>, side: TradeSide) -> (p:
        u64)
        ensures
            p == spec_estimated_price(bids@, asks@, side),
    {
        match side {
            TradeSide::BUY => {
                if asks.len() == 0 {
                    MICRO / 2
                } else {
                    asks[0].0
                }
            },
            TradeSide::SELL => {
                if bids.len() == 0 {
                    MICRO / 2
                } else {
                    bids[0].0
                }
            },
        }
    }

    /// Run the retry policy over pre-judged attempt outcomes (one per
    /// possible attempt, in order): returns the final result and the backoff
    /// sleeps, in milliseconds, that the policy prescribes between attempts.
    pub fn run_retry_schedule(&self, outcomes: &Vec<AttemptOutcome>) -> (r: (
        Result<OrderResponse, ExecutionError>,
        Vec<u64>,
    ))
        requires
            self.config.retry_attempts >= 1,
            outcomes@.len() >= self.config.retry_attempts,
            (self.config.retry_delay_ms as int) * (self.config.retry_attempts as int)
                <= u64::MAX,
        ensures
            r.0 == spec_retry(
                outcomes@,
                self.config.retry_attempts as int,
                self.config.retry_delay_ms as int,
            ).0,
            r.1@ == spec_retry(
                outcomes@,
                self.config.retry_attempts as int,
                self.config.retry_delay_ms as int,
            ).1,
    {
        let attempts = self.config.retry_attempts;
        let delay = self.config.retry_delay_ms;
        let ghost a = attempts as int;
        let ghost d = delay as int;
        let mut delays: Vec<u64> = Vec::new();
        let mut last_msg: Option<String> = None;
        let mut k: u32 = 1;
        proof {
            assert(Seq::<u64>::empty() + spec_retry(outcomes@, a, d).1 =~= spec_retry(
                outcomes@,
                a,
                d,
            ).1);
        }
        loop
            invariant
                1 <= k <= attempts,
                attempts == self.config.retry_attempts,
                delay == self.config.retry_delay_ms,
                a == attempts as int,
                d == delay as int,
                outcomes@.len() >= attempts,
                d * a <= u64::MAX,
                spec_retry(outcomes@, a, d).0 == spec_retry_from(
                    outcomes@,
                    a,
                    d,
                    k as int,
                    last_msg,
                ).0,
                spec_retry(outcomes@, a, d).1 == delays@ + spec_retry_from(
                    outcomes@,
                    a,
                    d,
                    k as int,
                    last_msg,
                ).1,
            decreases a - k,
        {
            let ghost k0 = k as int;
            let ghost last0 = last_msg;
            let oc = &outcomes[(k - 1) as usize];
            match oc {
                AttemptOutcome::Response(resp) => {
                    let success = resp.status == OrderStatus::Filled || resp.status
                        == OrderStatus::PartiallyFilled;
                    let terminal = resp.status == OrderStatus::Cancelled || resp.status
                        == OrderStatus::Rejected;
                    if success {
                        proof {
                            assert(spec_retry(outcomes@, a, d).1 =~= delays@);
                        }
                        return (Ok(resp.clone()), delays);
                    }
                    if terminal {
                        proof {
                            assert(spec_retry(outcomes@, a, d).1 =~= delays@);
                        }
                        return (
                            Err(
                                ExecutionError::Terminal {
                                    status: resp.status,
                                    order_id: resp.order_id.clone(),
                                },
                            ),
                            delays,
                        );
                    }
                },
                AttemptOutcome::Transport(m) => {
                    last_msg = Some(m.clone());
                },
            }
            proof {
                assert(spec_retry_from(outcomes@, a, d, k0, last0) == spec_retry_transient(
                    outcomes@,
                    a,
                    d,
                    k0,
                    last_msg,
                ));
            }
            if k == attempts {
                proof {
                    assert(spec_retry(outcomes@, a, d).1 =~= delays@);
                }
                return (
                    Err(
                        ExecutionError::Exhausted { attempts, last_transport: last_msg },
                    ),
                    delays,
                );
            }
            proof {
                lemma_mul_inequality(k as int, a, d);
                assert(d * (k as int) == (k as int) * d) by (nonlinear_arith);
                assert(a * d == d * a) by (nonlinear_arith);
            }
            let sleep_ms = delay * (k as u64);
            delays.push(sleep_ms);
            proof {
                assert(delays@ + spec_retry_from(outcomes@, a, d, k0 + 1, last_msg).1
                    =~= delays@.drop_last() + spec_retry_transient(outcomes@, a, d, k0, last_msg).1);
            }
            k = k + 1;
        }
    }
}

/// With every outcome transient, the policy spends the whole attempt budget:
/// it fails exhausted after exactly `attempts` attempts, having slept
/// `delay * 1, delay * 2, ..., delay * (attempts - 1)` between them.
pub proof fn lemma_retry_exhausts_on_transient(
    outcomes: Seq<AttemptOutcome>,
    attempts: int,
    delay: int,
)
    requires
        1 <= attempts <= outcomes.len(),
        0 <= delay,
        delay * attempts <= u64::MAX,
        forall|i: int| 0 <= i < attempts ==> is_transient(#[trigger] outcomes[i]),
    ensures
        spec_retry(outcomes, attempts, delay).0 matches Err(ExecutionError::Exhausted {
            attempts: a,
            last_transport: _,
        }) && a == attempts as u32,
        spec_retry(outcomes, attempts, delay).1.len() == attempts - 1,
        forall|j: int|
            0 <= j < attempts - 1 ==> spec_retry(outcomes, attempts, delay).1[j] == delay * (j
                + 1),
{
    lemma_retry_from_transient(outcomes, attempts, delay, 1, None);
}

/// Helper for the exhaustion law, generalized over the current attempt.
proof fn lemma_retry_from_transient(
    outcomes: Seq<AttemptOutcome>,
    attempts: int,
    delay: int,
    k: int,
    last: Option<String>,
)
    requires
        1 <= k <= attempts <= outcomes.len(),
        0 <= delay,
        delay * attempts <= u64::MAX,
        forall|i: int| k - 1 <= i < attempts ==> is_transient(#[trigger] outcomes[i]),
    ensures
        spec_retry_from(outcomes, attempts, delay, k, last).0 matches Err(
            ExecutionError::Exhausted { attempts: a, last_transport: _ },
        ) && a == attempts as u32,
        spec_retry_from(outcomes, attempts, delay, k, last).1.len() == attempts - k,
        forall|j: int|
            0 <= j < attempts - k ==> spec_retry_from(outcomes, attempts, delay, k, last).1[j]
                == delay * (k + j),
    decreases attempts - k,
{
    assert(is_transient(outcomes[k - 1]));
    let next_last = spec_transient_message(outcomes[k - 1], last);
    if k < attempts {
        lemma_retry_from_transient(outcomes, attempts, delay, k + 1, next_last);
        lemma_mul_inequality(k, attempts, delay);
        assert(delay * k == k * delay) by (nonlinear_arith);
        assert(attempts * delay == delay * attempts) by (nonlinear_arith);
        vstd::arithmetic::mul::lemma_mul_nonnegative(delay, k);
        assert forall|j: int| 0 <= j < attempts - k implies spec_retry_from(
            outcomes,
            attempts,
            delay,
            k,
            last,
        ).1[j] == delay * (k + j) by {
            if j > 0 {
                assert(spec_retry_from(outcomes, attempts, delay, k, last).1[j]
                    == spec_retry_from(outcomes, attempts, delay, k + 1, next_last).1[j - 1]);
            }
        }
    }
}

/// A terminal exchange verdict on the first attempt fails immediately:
/// no retry, no backoff sleep.
pub proof fn lemma_terminal_short_circuits(
    outcomes: Seq<AttemptOutcome>,
    attempts: int,
    delay: int,
)
    requires
        1 <= attempts <= outcomes.len(),
        outcomes[0] matches AttemptOutcome::Response(resp) && is_terminal_status(resp.status),
    ensures
        spec_retry(outcomes, attempts, delay).0 matches Err(ExecutionError::Terminal { .. }),
        spec_retry(outcomes, attempts, delay).1.len() == 0,
{
}

} // verus!
