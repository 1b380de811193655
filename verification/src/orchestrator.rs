//! Orchestration rules: the per-event stage machine of the main loop and
//! the once-per-day reset policy of the background timer. The loop that
//! awaits the queue and the exchange lives with the caller; each of its
//! decisions is taken here.

use vstd::prelude::*;
use crate::risk::{daily_reset_rel, RiskManager};
use crate::MICRO;

verus! {

/// Source balance assumed when the source account's balance cannot be
/// fetched: a deliberately large stand-in, so that sizing proceeds rather
/// than blocking (a permissive fallback; the proportional safety of that
/// mode is lost for the event).
pub const SOURCE_BALANCE_SENTINEL: u64 = 1_000_000 * MICRO;

/// Stages of handling one observed trade event.
#[derive(Clone, Copy, PartialEq, Eq, Structural, Debug)]
pub enum Stage {
    Received,
    Verified,
    MarketFetched,
    Sized,
    RiskApproved,
    Executed,
    Recorded,
    Skipped,
    Failed,
}

/// What the loop learned at the current stage: whether the account is
/// tracked, whether a fetch or the execution succeeded, or how the risk
/// check came out.
#[derive(Clone, Copy, PartialEq, Eq, Structural, Debug)]
pub enum StageInput {
    SourceVerdict(bool),
    MarketFetch(bool),
    OwnBalanceFetch(bool),
    SourceBalanceFetch(bool),
    RiskVerdict(bool),
    ExecutionResult(bool),
}

/// The side effect the loop must perform along a transition.
#[derive(Clone, Copy, PartialEq, Eq, Structural, Debug)]
pub enum StageEffect {
    Nothing,
    /// Feed the failure to the risk manager's error counter.
    RecordError,
    /// Size with `SOURCE_BALANCE_SENTINEL` in place of the source balance.
    UseSentinelBalance,
    /// Feed the executed trade to the risk manager's success counters.
    RecordTrade,
}

/// The per-event stage machine. An unverified account skips the event with
/// no risk-state mutation; a failed market or own-balance fetch and a failed
/// execution fail the event and count as errors; a failed source-balance
/// fetch substitutes the sentinel and goes on; a risk rejection fails the
/// event without counting as an error (expected governance, not a system
/// error); a successful execution is recorded. Any input that does not
/// belong to the stage changes nothing.
pub open spec fn spec_next_stage(stage: Stage, input: StageInput) -> (Stage, StageEffect) {
    match (stage, input) {
        (Stage::Received, StageInput::SourceVerdict(ok)) => if ok {
            (Stage::Verified, StageEffect::Nothing)
        } else {
            (Stage::Skipped, StageEffect::Nothing)
        },
        (Stage::Verified, StageInput::MarketFetch(ok)) => if ok {
            (Stage::MarketFetched, StageEffect::Nothing)
        } else {
            (Stage::Failed, StageEffect::RecordError)
        },
        (Stage::MarketFetched, StageInput::OwnBalanceFetch(ok)) => if ok {
            (Stage::MarketFetched, StageEffect::Nothing)
        } else {
            (Stage::Failed, StageEffect::RecordError)
        },
        (Stage::MarketFetched, StageInput::SourceBalanceFetch(ok)) => if ok {
            (Stage::Sized, StageEffect::Nothing)
        } else {
            (Stage::Sized, StageEffect::UseSentinelBalance)
        },
        (Stage::Sized, StageInput::RiskVerdict(ok)) => if ok {
            (Stage::RiskApproved, StageEffect::Nothing)
        } else {
            (Stage::Failed, StageEffect::Nothing)
        },
        (Stage::RiskApproved, StageInput::ExecutionResult(ok)) => if ok {
            (Stage::Recorded, StageEffect::RecordTrade)
        } else {
            (Stage::Failed, StageEffect::RecordError)
        },
        _ => (stage, StageEffect::Nothing),
    }
}

/// Take one step of the per-event stage machine.
pub fn next_stage(stage: Stage, input: StageInput) -> (r: (Stage, StageEffect))
    ensures
        r == spec_next_stage(stage, input),
{
    match (stage, input) {
        (Stage::Received, StageInput::SourceVerdict(ok)) => if ok {
            (Stage::Verified, StageEffect::Nothing)
        } else {
            (Stage::Skipped, StageEffect::Nothing)
        },
        (Stage::Verified, StageInput::MarketFetch(ok)) => if ok {
            (Stage::MarketFetched, StageEffect::Nothing)
        } else {
            (Stage::Failed, StageEffect::RecordError)
        },
        (Stage::MarketFetched, StageInput::OwnBalanceFetch(ok)) => if ok {
            (Stage::MarketFetched, StageEffect::Nothing)
        } else {
            (Stage::Failed, StageEffect::RecordError)
        },
        (Stage::MarketFetched, StageInput::SourceBalanceFetch(ok)) => if ok {
            (Stage::Sized, StageEffect::Nothing)
        } else {
            (Stage::Sized, StageEffect::UseSentinelBalance)
        },
        (Stage::Sized, StageInput::RiskVerdict(ok)) => if ok {
            (Stage::RiskApproved, StageEffect::Nothing)
        } else {
            (Stage::Failed, StageEffect::Nothing)
        },
        (Stage::RiskApproved, StageInput::ExecutionResult(ok)) => if ok {
            (Stage::Recorded, StageEffect::RecordTrade)
        } else {
            (Stage::Failed, StageEffect::RecordError)
        },
        (s, _) => (s, StageEffect::Nothing),
    }
}

/// Remembers the last UTC day on which the daily statistics were reset, so
/// that several timer ticks within the same midnight window reset only once.
pub struct DailyResetClock {
    pub last_reset_day: Option<i64>,
}

impl DailyResetClock {
    /// A clock that has never reset.
    pub fn new() -> (c: Self)
        ensures
            c.last_reset_day is None,
    {
        DailyResetClock { last_reset_day: None }
    }

    /// Decide at a timer tick whether to run the daily reset: only within
    /// the first minute after UTC midnight, and only once per day.
    pub fn should_reset(&mut self, day: i64, hour: u32, minute: u32) -> (r: bool)
        ensures
            r == (hour == 0 && minute < 1 && old(self).last_reset_day != Some(day)),
            r ==> final(self).last_reset_day == Some(day),
            !r ==> *final(self) == *old(self),
    {
        let due = hour == 0 && minute < 1 && match self.last_reset_day {
            Some(d) => d != day,
            None => true,
        };
        if due {
            self.last_reset_day = Some(day);
        }
        due
    }
}

/// Split a non-negative Unix timestamp (seconds) into the UTC day index and
/// the hour and minute of that day; a pre-epoch clock reading counts as the
/// epoch itself.
pub fn clock_parts(ts: i64) -> (r: (i64, u32, u32))
    ensures
        ({
            let t = if ts < 0 {
                0
            } else {
                ts as int
            };
            r.0 == t / 86400 && r.1 == t % 86400 / 3600 && r.2 == t % 86400 % 3600 / 60
        }),
        r.1 < 24,
        r.2 < 60,
{
    let t: u64 = if ts < 0 {
        0
    } else {
        ts as u64
    };
    let day = (t / 86400) as i64;
    let seconds_of_day = t % 86400;
    let hour = (seconds_of_day / 3600) as u32;
    let minute = (seconds_of_day % 3600 / 60) as u32;
    (day, hour, minute)
}

/// Relies on `chrono::Utc::now`, read as whole seconds since the Unix epoch.
/// The wall clock depends on the machine; nothing is promised about it.
#[verifier::external_body]
fn unix_time_now() -> i64 {
    chrono::Utc::now().timestamp()
}

/// Poll the background timer: run the daily reset exactly when a tick falls
/// in the first minute of a UTC day not yet reset. Whatever the wall clock
/// reads, the risk state is either reset once (daily counters and exposure
/// zeroed, breaker untouched) or left exactly as it was.
pub fn maybe_daily_reset(clock: &mut DailyResetClock, risk: &mut RiskManager) -> (reset: bool)
    requires
        old(risk).wf(),
    ensures
        reset ==> daily_reset_rel(*old(risk), *final(risk)),
        !reset ==> *final(risk) == *old(risk),
        final(risk).wf(),
{
    let ts = unix_time_now();
    let (day, hour, minute) = clock_parts(ts);
    if clock.should_reset(day, hour, minute) {
        risk.reset_daily_stats();
        true
    } else {
        false
    }
}

} // verus!
