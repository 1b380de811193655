//! Risk gating: the circuit breaker, daily volume and per-event exposure
//! limits, and the liquidity floors. Every candidate trade passes through
//! `check_can_trade`; outcomes are fed back through `record_trade` and
//! `record_error`.

use vstd::prelude::*;
use crate::types::{CircuitBreakerState, Config, Market, Trade};
use crate::exposure::ExposureMap;

verus! {

/// Why a candidate trade was refused; the checks run in this order and the
/// first failing one wins.
#[derive(Debug)]
pub enum RiskError {
    /// The circuit breaker is tripped; carries the recorded trip reason.
    BreakerTripped(String),
    DailyVolumeExceeded,
    EventExposureExceeded,
    InsufficientLiquidity,
    InsufficientDepth,
}

/// Payload-free verdict of the ordered risk checks.
#[derive(Clone, Copy, PartialEq, Eq, Structural, Debug)]
pub enum RiskCheck {
    Approved,
    Tripped,
    VolumeExceeded,
    ExposureExceeded,
    LiquidityLow,
    DepthLow,
}

/// The ordered risk checks: breaker first, then daily volume, per-event
/// exposure, the liquidity floor, and the independently configured depth
/// floor (both floors read the same liquidity proxy).
pub open spec fn spec_check_verdict(
    cfg: Config,
    state: CircuitBreakerState,
    exposure_g: int,
    liquidity: int,
    size_usd: int,
) -> RiskCheck {
    if state.is_tripped {
        RiskCheck::Tripped
    } else if state.total_volume_today + size_usd > cfg.max_daily_volume {
        RiskCheck::VolumeExceeded
    } else if exposure_g + size_usd > cfg.max_exposure_per_event {
        RiskCheck::ExposureExceeded
    } else if liquidity < cfg.min_liquidity {
        RiskCheck::LiquidityLow
    } else if liquidity < cfg.cb_min_depth_usd {
        RiskCheck::DepthLow
    } else {
        RiskCheck::Approved
    }
}

/// One step of the breaker counters: `true` is a recorded successful trade,
/// `false` a recorded error. Mirrors exactly what `record_trade` and
/// `record_error` ensure about `consecutive_errors` and `is_tripped`.
pub open spec fn breaker_step(trigger: int, errors: int, tripped: bool, success: bool) -> (int, bool) {
    if success {
        (0, tripped)
    } else {
        (errors + 1, tripped || errors + 1 >= trigger)
    }
}

/// Breaker counters after a whole outcome sequence, starting untripped at 0.
pub open spec fn breaker_fold(trigger: int, outcomes: Seq<bool>) -> (int, bool)
    decreases outcomes.len(),
{
    if outcomes.len() == 0 {
        (0, false)
    } else {
        let prev = breaker_fold(trigger, outcomes.drop_last());
        breaker_step(trigger, prev.0, prev.1, outcomes.last())
    }
}

/// Length of the trailing run of errors in an outcome sequence.
pub open spec fn trailing_errors(outcomes: Seq<bool>) -> int
    decreases outcomes.len(),
{
    if outcomes.len() == 0 || outcomes.last() {
        0
    } else {
        trailing_errors(outcomes.drop_last()) + 1
    }
}

/// `trigger` consecutive errors end at position `i` of the sequence.
pub open spec fn error_window_ends_at(outcomes: Seq<bool>, trigger: int, i: int) -> bool {
    &&& 0 <= i < outcomes.len()
    &&& i + 1 >= trigger
    &&& forall|k: int| i + 1 - trigger <= k <= i ==> !outcomes[k]
}

/// The breaker's error count is the length of the trailing error run.
proof fn lemma_fold_counts_trailing(trigger: int, outcomes: Seq<bool>)
    ensures
        breaker_fold(trigger, outcomes).0 == trailing_errors(outcomes),
    decreases outcomes.len(),
{
    if outcomes.len() > 0 {
        lemma_fold_counts_trailing(trigger, outcomes.drop_last());
    }
}

/// The trailing error run is never longer than the sequence.
proof fn lemma_trailing_le(outcomes: Seq<bool>)
    ensures
        0 <= trailing_errors(outcomes) <= outcomes.len(),
    decreases outcomes.len(),
{
    if outcomes.len() > 0 {
        lemma_trailing_le(outcomes.drop_last());
    }
}

/// The trailing error run reaches `t` exactly when the last `t` outcomes
/// are all errors.
proof fn lemma_trailing_window(outcomes: Seq<bool>, t: int)
    requires
        0 <= t <= outcomes.len(),
    ensures
        trailing_errors(outcomes) >= t <==> (forall|k: int|
            outcomes.len() - t <= k < outcomes.len() ==> !outcomes[k]),
    decreases t,
{
    lemma_trailing_le(outcomes);
    if t > 0 {
        let n = outcomes.len() as int;
        if outcomes.last() {
            assert(n - t <= n - 1 < n && outcomes[n - 1]);
        } else {
            let prefix = outcomes.drop_last();
            lemma_trailing_window(prefix, t - 1);
            assert(trailing_errors(outcomes) == trailing_errors(prefix) + 1);
            if trailing_errors(outcomes) >= t {
                assert forall|k: int| n - t <= k < n implies !outcomes[k] by {
                    if k < n - 1 {
                        assert(!prefix[k]);
                        assert(prefix[k] == outcomes[k]);
                    }
                }
            }
            if forall|k: int| n - t <= k < n ==> !outcomes[k] {
                assert forall|k: int| (n - 1) - (t - 1) <= k < n - 1 implies !prefix[k] by {
                    assert(prefix[k] == outcomes[k]);
                    assert(!outcomes[k]);
                }
                assert(trailing_errors(prefix) >= t - 1);
            }
        }
    }
}

/// The breaker trips on an outcome sequence exactly when some window of
/// `trigger` consecutive errors occurs in it, uninterrupted by a success;
/// and a single success always returns the error count to 0.
pub proof fn lemma_breaker_trips_iff(trigger: int, outcomes: Seq<bool>)
    requires
        trigger >= 1,
    ensures
        breaker_fold(trigger, outcomes).1 <==> exists|i: int|
            error_window_ends_at(outcomes, trigger, i),
        breaker_fold(trigger, outcomes.push(true)).0 == 0,
    decreases outcomes.len(),
{
    assert(outcomes.push(true).drop_last() =~= outcomes);
    let n = outcomes.len() as int;
    if n == 0 {
        assert(forall|i: int| !error_window_ends_at(outcomes, trigger, i));
    } else {
        let prefix = outcomes.drop_last();
        lemma_breaker_trips_iff(trigger, prefix);
        assert forall|k: int| 0 <= k < n - 1 implies prefix[k] == outcomes[k] by {}
        // windows that end before the last position transfer between the two
        assert forall|i: int|
            0 <= i < n - 1 implies (error_window_ends_at(prefix, trigger, i)
            <==> error_window_ends_at(outcomes, trigger, i)) by {
            if error_window_ends_at(prefix, trigger, i) {
                assert forall|k: int| i + 1 - trigger <= k <= i implies !outcomes[k] by {
                    assert(!prefix[k]);
                }
            }
            if error_window_ends_at(outcomes, trigger, i) {
                assert forall|k: int| i + 1 - trigger <= k <= i implies !prefix[k] by {
                    assert(!outcomes[k]);
                }
            }
        }
        if outcomes.last() {
            // a success never completes an error window at the last position
            assert(!error_window_ends_at(outcomes, trigger, n - 1));
            if breaker_fold(trigger, outcomes).1 {
                let i = choose|i: int| error_window_ends_at(prefix, trigger, i);
                assert(error_window_ends_at(outcomes, trigger, i));
            }
            if exists|i: int| error_window_ends_at(outcomes, trigger, i) {
                let i = choose|i: int| error_window_ends_at(outcomes, trigger, i);
                assert(error_window_ends_at(prefix, trigger, i));
            }
        } else {
            lemma_fold_counts_trailing(trigger, prefix);
            lemma_trailing_le(prefix);
            assert(trailing_errors(outcomes) == trailing_errors(prefix) + 1);
            if trigger <= n {
                lemma_trailing_window(outcomes, trigger);
            } else {
                // too short for any window; the run cannot reach the trigger
                assert(forall|i: int| !error_window_ends_at(outcomes, trigger, i));
            }
            if breaker_fold(trigger, outcomes).1 {
                if breaker_fold(trigger, prefix).1 {
                    let i = choose|i: int| error_window_ends_at(prefix, trigger, i);
                    assert(error_window_ends_at(outcomes, trigger, i));
                } else {
                    // the trailing run, now one longer, reaches the trigger
                    assert(trailing_errors(outcomes) >= trigger);
                    assert(error_window_ends_at(outcomes, trigger, n - 1));
                }
            }
            if exists|i: int| error_window_ends_at(outcomes, trigger, i) {
                let i = choose|i: int| error_window_ends_at(outcomes, trigger, i);
                if i < n - 1 {
                    assert(error_window_ends_at(prefix, trigger, i));
                } else {
                    assert(trailing_errors(outcomes) >= trigger);
                }
            }
        }
    }
}

/// The sizes recorded for group `g` among `records` (pairs of event-group
/// view and micro-USD size).
pub open spec fn recorded_total(records: Seq<(Seq<char>, int)>, g: Seq<char>) -> int
    decreases records.len(),
{
    if records.len() == 0 {
        0
    } else {
        recorded_total(records.drop_last(), g) + (if records.last().0 == g {
            records.last().1
        } else {
            0
        })
    }
}

/// What `record_trade` ensures about the exposure map: the recorded group
/// grows by the recorded size and every other group is untouched.
pub open spec fn record_step_rel(pre: RiskManager, post: RiskManager, group: Seq<char>, size: int) -> bool {
    &&& post.exposure_of(group) == pre.exposure_of(group) + size
    &&& forall|g: Seq<char>| g != group ==> post.exposure_of(g) == pre.exposure_of(g)
}

/// Exposure invariant: across any chain of states linked by `record_trade`
/// steps, each group's exposure grows by exactly the sum of the sizes
/// recorded for that group.
pub proof fn lemma_exposure_sums_records(
    states: Seq<RiskManager>,
    records: Seq<(Seq<char>, int)>,
    g: Seq<char>,
)
    requires
        states.len() == records.len() + 1,
        forall|i: int|
            0 <= i < records.len() ==> record_step_rel(
                #[trigger] states[i],
                states[i + 1],
                records[i].0,
                records[i].1,
            ),
    ensures
        states.last().exposure_of(g) == states.first().exposure_of(g) + recorded_total(records, g),
    decreases records.len(),
{
    if records.len() > 0 {
        lemma_exposure_sums_records(states.drop_last(), records.drop_last(), g);
        let n = records.len() as int;
        assert(record_step_rel(states[n - 1], states[n], records[n - 1].0, records[n - 1].1));
    }
}

/// Everything `reset_daily_stats` promises: daily counters and exposure
/// zeroed, breaker state and configuration untouched.
pub open spec fn daily_reset_rel(pre: RiskManager, post: RiskManager) -> bool {
    &&& post.wf()
    &&& post.config == pre.config
    &&& post.state.total_trades_today == 0
    &&& post.state.total_volume_today == 0
    &&& forall|g: Seq<char>| post.exposure_of(g) == 0
    &&& post.state.consecutive_errors == pre.state.consecutive_errors
    &&& post.state.is_tripped == pre.state.is_tripped
    &&& post.state.trip_reason == pre.state.trip_reason
}

/// Resetting the daily statistics twice in the same day leaves exactly the
/// state one reset leaves — zeroed volume, trades and exposure — and never
/// clears a tripped breaker.
pub proof fn lemma_daily_reset_idempotent(s0: RiskManager, s1: RiskManager, s2: RiskManager)
    requires
        daily_reset_rel(s0, s1),
        daily_reset_rel(s1, s2),
    ensures
        s2.state.total_trades_today == s1.state.total_trades_today,
        s2.state.total_volume_today == s1.state.total_volume_today,
        forall|g: Seq<char>| s2.exposure_of(g) == s1.exposure_of(g),
        s2.state.consecutive_errors == s1.state.consecutive_errors,
        s2.state.is_tripped == s1.state.is_tripped,
        s1.state.is_tripped == s0.state.is_tripped,
        s2.state.trip_reason == s1.state.trip_reason,
{
}

/// First-check-wins: a tripped breaker is reported even when the daily
/// volume limit is exceeded at the same time.
pub proof fn lemma_breaker_takes_precedence(
    cfg: Config,
    state: CircuitBreakerState,
    exposure_g: int,
    liquidity: int,
    size_usd: int,
)
    requires
        state.is_tripped,
        state.total_volume_today + size_usd > cfg.max_daily_volume,
    ensures
        spec_check_verdict(cfg, state, exposure_g, liquidity, size_usd) == RiskCheck::Tripped,
{
}

/// Process-wide risk state: configuration, breaker counters, and per-event
/// exposure. One instance gates every trade; callers that share it across
/// tasks put it behind a lock.
pub struct RiskManager {
    pub config: Config,
    pub state: CircuitBreakerState,
    pub event_exposure: ExposureMap,
}

impl RiskManager {
    /// The exposure map keeps its pairwise-distinct keys.
    pub open spec fn wf(&self) -> bool {
        self.event_exposure.wf()
    }

    /// Exposure recorded for event group `g` since the last daily reset.
    pub open spec fn exposure_of(&self, g: Seq<char>) -> int {
        self.event_exposure.total_of(g)
    }

    /// The reason reported while the breaker is tripped: the recorded one,
    /// or a placeholder when none was recorded.
    pub open spec fn spec_trip_reason(&self) -> Seq<char> {
        match self.state.trip_reason {
            Some(r) => r@,
            None => "Unknown"@,
        }
    }

    /// A fresh manager: nothing traded, nothing tripped, no exposure.
    pub fn new(config: Config) -> (r: Self)
        ensures
            r.wf(),
            r.config == config,
            r.state.consecutive_errors == 0,
            r.state.total_trades_today == 0,
            r.state.total_volume_today == 0,
            !r.state.is_tripped,
            r.state.trip_reason is None,
            forall|g: Seq<char>| r.exposure_of(g) == 0,
    {
        RiskManager {
            config,
            state: CircuitBreakerState {
                consecutive_errors: 0,
                total_trades_today: 0,
                total_volume_today: 0,
                is_tripped: false,
                trip_reason: None,
            },
            event_exposure: ExposureMap::new(),
        }
    }

    /// The ordered risk checks for a candidate trade of `size_usd` micro-USD:
    /// `Ok` exactly when every check passes, otherwise the error of the first
    /// failing check.
    pub fn check_can_trade(&self, trade: &Trade, market: &Market, size_usd: u64) -> (r: Result<
        (),
        RiskError,
    >)
        requires
            self.wf(),
        ensures
            ({
                let verdict = spec_check_verdict(
                    self.config,
                    self.state,
                    self.exposure_of(trade.event_id@),
                    market.liquidity as int,
                    size_usd as int,
                );
                match r {
                    Ok(()) => verdict == RiskCheck::Approved,
                    Err(RiskError::BreakerTripped(reason)) => verdict == RiskCheck::Tripped
                        && reason@ == self.spec_trip_reason(),
                    Err(RiskError::DailyVolumeExceeded) => verdict == RiskCheck::VolumeExceeded,
                    Err(RiskError::EventExposureExceeded) => verdict
                        == RiskCheck::ExposureExceeded,
                    Err(RiskError::InsufficientLiquidity) => verdict == RiskCheck::LiquidityLow,
                    Err(RiskError::InsufficientDepth) => verdict == RiskCheck::DepthLow,
                }
            }),
    {
        if self.state.is_tripped {
            let reason = match &self.state.trip_reason {
                Some(r) => r.clone(),
                None => "Unknown".to_owned(),
            };
            return Err(RiskError::BreakerTripped(reason));
        }
        if (self.state.total_volume_today as u128) + (size_usd as u128) > (
        self.config.max_daily_volume as u128) {
            return Err(RiskError::DailyVolumeExceeded);
        }
        let current_exposure = self.event_exposure.total_for(trade.event_id.as_str());
        if (current_exposure as u128) + (size_usd as u128) > (self.config.max_exposure_per_event
            as u128) {
            return Err(RiskError::EventExposureExceeded);
        }
        if market.liquidity < self.config.min_liquidity {
            return Err(RiskError::InsufficientLiquidity);
        }
        if market.liquidity < self.config.cb_min_depth_usd {
            return Err(RiskError::InsufficientDepth);
        }
        Ok(())
    }

    /// Record a successfully executed trade: one more trade today, `size_usd`
    /// more daily volume and exposure for the trade's event group, and the
    /// consecutive-error count returns to 0. The breaker latch is untouched.
    pub fn record_trade(&mut self, trade: &Trade, size_usd: u64)
        requires
            old(self).wf(),
            old(self).state.total_trades_today < u32::MAX,
            old(self).state.total_volume_today + size_usd <= u64::MAX,
            old(self).exposure_of(trade.event_id@) + size_usd <= u64::MAX,
        ensures
            final(self).wf(),
            final(self).config == old(self).config,
            final(self).state.total_trades_today == old(self).state.total_trades_today + 1,
            final(self).state.total_volume_today == old(self).state.total_volume_today + size_usd,
            final(self).state.consecutive_errors == 0,
            final(self).state.is_tripped == old(self).state.is_tripped,
            final(self).state.trip_reason == old(self).state.trip_reason,
            record_step_rel(*old(self), *final(self), trade.event_id@, size_usd as int),
            (final(self).state.consecutive_errors as int, final(self).state.is_tripped)
                == breaker_step(
                old(self).config.cb_consecutive_trigger as int,
                old(self).state.consecutive_errors as int,
                old(self).state.is_tripped,
                true,
            ),
    {
        self.state.total_trades_today = self.state.total_trades_today + 1;
        self.state.total_volume_today = self.state.total_volume_today + size_usd;
        self.state.consecutive_errors = 0;
        self.event_exposure.add(trade.event_id.as_str(), size_usd);
    }

    /// Record a failure at the fetch/execution boundary: one more
    /// consecutive error; reaching the configured trigger trips the breaker
    /// and records this error's message as the trip reason. Daily counters
    /// and exposure are untouched.
    pub fn record_error(&mut self, error: &str)
        requires
            old(self).state.consecutive_errors < u32::MAX,
        ensures
            final(self).wf() == old(self).wf(),
            final(self).config == old(self).config,
            final(self).state.consecutive_errors == old(self).state.consecutive_errors + 1,
            final(self).state.is_tripped == (old(self).state.is_tripped || old(
                self,
            ).state.consecutive_errors + 1 >= old(self).config.cb_consecutive_trigger),
            old(self).state.consecutive_errors + 1 >= old(self).config.cb_consecutive_trigger
                ==> match final(self).state.trip_reason {
                Some(reason) => reason@ == error@,
                None => false,
            },
            old(self).state.consecutive_errors + 1 < old(self).config.cb_consecutive_trigger
                ==> final(self).state.trip_reason == old(self).state.trip_reason,
            final(self).state.total_trades_today == old(self).state.total_trades_today,
            final(self).state.total_volume_today == old(self).state.total_volume_today,
            final(self).event_exposure == old(self).event_exposure,
            (final(self).state.consecutive_errors as int, final(self).state.is_tripped)
                == breaker_step(
                old(self).config.cb_consecutive_trigger as int,
                old(self).state.consecutive_errors as int,
                old(self).state.is_tripped,
                false,
            ),
    {
        self.state.consecutive_errors = self.state.consecutive_errors + 1;
        if self.state.consecutive_errors >= self.config.cb_consecutive_trigger {
            self.state.is_tripped = true;
            self.state.trip_reason = Some(error.to_owned());
        }
    }

    /// Operator intervention: clear the latch, the error count and the
    /// recorded reason. Daily counters and exposure are untouched.
    pub fn reset_circuit_breaker(&mut self)
        ensures
            final(self).wf() == old(self).wf(),
            final(self).config == old(self).config,
            final(self).state.consecutive_errors == 0,
            !final(self).state.is_tripped,
            final(self).state.trip_reason is None,
            final(self).state.total_trades_today == old(self).state.total_trades_today,
            final(self).state.total_volume_today == old(self).state.total_volume_today,
            final(self).event_exposure == old(self).event_exposure,
    {
        self.state.is_tripped = false;
        self.state.consecutive_errors = 0;
        self.state.trip_reason = None;
    }

    /// Day-boundary reset: zero the daily trade count, volume and exposure.
    /// Deliberately leaves the breaker latch, the consecutive-error count
    /// and the trip reason alone: a tripped breaker survives the daily reset.
    pub fn reset_daily_stats(&mut self)
        requires
            old(self).wf(),
        ensures
            daily_reset_rel(*old(self), *final(self)),
    {
        self.state.total_trades_today = 0;
        self.state.total_volume_today = 0;
        self.event_exposure.clear();
    }

    /// A snapshot of the breaker counters.
    pub fn get_state(&self) -> (r: CircuitBreakerState)
        ensures
            r == self.state,
    {
        self.state.clone()
    }

    /// Membership of `wallet` in the configured tracked-account allow-list;
    /// events from any other account never reach the risk-approved stage.
    pub fn is_whale_verified(&self, wallet: &str) -> (r: bool)
        ensures
            r == exists|i: int|
                0 <= i < self.config.wallets_to_track@.len()
                    && self.config.wallets_to_track@[i]@ == wallet@,
    {
        let key = wallet.to_owned();
        let n = self.config.wallets_to_track.len();
        for i in 0..n
            invariant
                n == self.config.wallets_to_track.len(),
                key@ == wallet@,
                forall|j: int| 0 <= j < i ==> self.config.wallets_to_track@[j]@ != wallet@,
        {
            if self.config.wallets_to_track[i] == key {
                return true;
            }
        }
        false
    }
}

} // verus!
