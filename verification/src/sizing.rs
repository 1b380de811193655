//! Position sizing: a pure function from configuration, the observed trade
//! and the two account balances to a proposed stake in micro-USD.

use vstd::prelude::*;
use crate::types::{Config, SizingMode, Trade};
use crate::MICRO;
use vstd::arithmetic::mul::{lemma_mul_upper_bound, lemma_mul_nonnegative};
use vstd::arithmetic::div_mod::lemma_div_is_ordered;

verus! {

/// Step multiplier for tier-based sizing, in tenths: 0.5x below 50 USD,
/// 1x below 200 USD, 1.5x below 500 USD, 2x from 500 USD up.
pub open spec fn spec_tier_multiplier_tenths(trade_size_usd: int) -> int {
    if trade_size_usd < 50 * MICRO {
        5
    } else if trade_size_usd < 200 * MICRO {
        10
    } else if trade_size_usd < 500 * MICRO {
        15
    } else {
        20
    }
}

/// USD value of a trade: shares times unit price, in micro-USD.
pub open spec fn spec_usd_value(shares: int, price: int) -> int {
    shares * price / (MICRO as int)
}

/// Bankroll ratio of the mirroring account to the source account, micro-scaled;
/// the source balance counts as at least one USD to guard the division.
pub open spec fn spec_proportional_ratio(own_balance: int, source_balance: int) -> int {
    own_balance * (MICRO as int) / (if source_balance < MICRO {
        MICRO as int
    } else {
        source_balance
    })
}

/// Proposed stake before limits are applied.
pub open spec fn spec_raw_size(cfg: Config, t: Trade, own_balance: int, source_balance: int) -> int {
    match cfg.sizing_mode {
        SizingMode::Fixed => cfg.fixed_stake as int,
        SizingMode::Proportional => spec_usd_value(t.shares as int, t.price as int)
            * spec_proportional_ratio(own_balance, source_balance) / (MICRO as int),
        SizingMode::TierBased => (t.shares as int) * spec_tier_multiplier_tenths(
            spec_usd_value(t.shares as int, t.price as int),
        ) * (cfg.proportional_ratio as int) / (10 * (MICRO as int)),
    }
}

/// The final stake: the raw size clamped to `[min_stake, max_stake]`
/// (lower bound first), then capped at 95% of the own balance
/// (the last 5% of available funds are never risked).
pub open spec fn spec_size(cfg: Config, t: Trade, own_balance: int, source_balance: int) -> int {
    let clamped = crate::spec_clamp(
        spec_raw_size(cfg, t, own_balance, source_balance),
        cfg.min_stake as int,
        cfg.max_stake as int,
    );
    let reserve = own_balance * 95 / 100;
    if clamped > reserve {
        reserve
    } else {
        clamped
    }
}

/// The product of two values that each fit in a `u64` fits in a `u128`.
pub proof fn lemma_u64_mul_fits(a: int, b: int)
    requires
        0 <= a <= u64::MAX,
        0 <= b <= u64::MAX,
    ensures
        0 <= a * b <= (u64::MAX as int) * (u64::MAX as int),
        a * b <= u128::MAX,
{
    lemma_mul_upper_bound(a, u64::MAX as int, b, u64::MAX as int);
    lemma_mul_nonnegative(a, b);
}

/// Replacing a raw size by any stand-in that agrees with it below the cap
/// and stays at or above the cap otherwise does not change the clamped
/// result, as long as both bounds fit in a `u64`.
proof fn lemma_clamp_saturate(raw: int, capped: int, lo: int, hi: int)
    requires
        raw <= u64::MAX ==> capped == raw,
        raw > u64::MAX ==> capped == u64::MAX,
        0 <= lo <= u64::MAX,
        0 <= hi <= u64::MAX,
    ensures
        crate::spec_clamp(capped, lo, hi) == crate::spec_clamp(raw, lo, hi),
{
}

/// A product that overflows a `u128` still exceeds `u64::MAX` after a
/// division by at most ten million.
proof fn lemma_overflowed_quotient_large(product: int, divisor: int)
    requires
        product > u128::MAX,
        0 < divisor <= 10 * (MICRO as int),
    ensures
        product / divisor > u64::MAX,
{
    let witness = (u64::MAX as int) + 1;
    assert(divisor * witness < u128::MAX) by (nonlinear_arith)
        requires
            0 < divisor <= 10 * (MICRO as int),
            witness == (u64::MAX as int) + 1,
    ;
    lemma_div_is_ordered(divisor * witness, product, divisor);
    vstd::arithmetic::div_mod::lemma_div_multiples_vanish(witness, divisor);
}

/// Fixed-mode sizing never looks at the observed trade or the source
/// balance: whatever they are, the stake is the fixed stake clamped to
/// `[min_stake, max_stake]` and capped at 95% of the own balance.
pub proof fn lemma_fixed_sizing(
    cfg: Config,
    t1: Trade,
    t2: Trade,
    own_balance: int,
    source_1: int,
    source_2: int,
)
    requires
        cfg.sizing_mode == SizingMode::Fixed,
    ensures
        spec_size(cfg, t1, own_balance, source_1) == spec_size(cfg, t2, own_balance, source_2),
        spec_size(cfg, t1, own_balance, source_1) == ({
            let clamped = crate::spec_clamp(
                cfg.fixed_stake as int,
                cfg.min_stake as int,
                cfg.max_stake as int,
            );
            let reserve = own_balance * 95 / 100;
            if clamped > reserve {
                reserve
            } else {
                clamped
            }
        }),
{
}

pub struct PositionSizer {
    pub config: Config,
}

impl PositionSizer {
    pub fn new(config: Config) -> (s: Self)
        ensures
            s.config == config,
    {
        PositionSizer { config }
    }

    /// The tier multiplier, in tenths, for a trade of the given micro-USD value.
    pub fn tier_multiplier_tenths(&self, trade_size_usd: u64) -> (m: u64)
        ensures
            m == spec_tier_multiplier_tenths(trade_size_usd as int),
    {
        if trade_size_usd < 50 * MICRO {
            5
        } else if trade_size_usd < 200 * MICRO {
            10
        } else if trade_size_usd < 500 * MICRO {
            15
        } else {
            20
        }
    }

    /// Proposed stake in micro-USD for mirroring `whale_trade`, given the own
    /// and the source account balances in micro-USD.
    pub fn calculate_size(&self, whale_trade: &Trade, your_balance: u64, whale_balance: u64) -> (size: u64)
        ensures
            size == spec_size(self.config, *whale_trade, your_balance as int, whale_balance as int),
    {
        let shares = whale_trade.shares;
        let price = whale_trade.price;
        let ghost raw = spec_raw_size(
            self.config,
            *whale_trade,
            your_balance as int,
            whale_balance as int,
        );
        proof {
            lemma_u64_mul_fits(shares as int, price as int);
        }
        let usd_value: u128 = (shares as u128) * (price as u128) / (MICRO as u128);

        let capped: u64 = match self.config.sizing_mode {
            SizingMode::Fixed => self.config.fixed_stake,
            SizingMode::Proportional => {
                let denom: u128 = if whale_balance < MICRO {
                    MICRO as u128
                } else {
                    whale_balance as u128
                };
                proof {
                    lemma_u64_mul_fits(your_balance as int, MICRO as int);
                }
                let ratio: u128 = (your_balance as u128) * (MICRO as u128) / denom;
                match usd_value.checked_mul(ratio) {
                    Some(product) => {
                        let quotient = product / (MICRO as u128);
                        if quotient > u64::MAX as u128 {
                            u64::MAX
                        } else {
                            quotient as u64
                        }
                    },
                    None => {
                        proof {
                            lemma_overflowed_quotient_large(
                                (usd_value as int) * (ratio as int),
                                MICRO as int,
                            );
                        }
                        u64::MAX
                    },
                }
            },
            SizingMode::TierBased => {
                let mult: u64 = if usd_value > u64::MAX as u128 {
                    20
                } else {
                    self.tier_multiplier_tenths(usd_value as u64)
                };
                proof {
                    lemma_u64_mul_fits(shares as int, mult as int);
                }
                let weighted: u128 = (shares as u128) * (mult as u128);
                match weighted.checked_mul(self.config.proportional_ratio as u128) {
                    Some(product) => {
                        let quotient = product / (10 * (MICRO as u128));
                        if quotient > u64::MAX as u128 {
                            u64::MAX
                        } else {
                            quotient as u64
                        }
                    },
                    None => {
                        proof {
                            lemma_overflowed_quotient_large(
                                (weighted as int) * (self.config.proportional_ratio as int),
                                10 * (MICRO as int),
                            );
                        }
                        u64::MAX
                    },
                }
            },
        };
        proof {
            lemma_clamp_saturate(
                raw,
                capped as int,
                self.config.min_stake as int,
                self.config.max_stake as int,
            );
        }

        let clamped = crate::clamp_u64(capped, self.config.min_stake, self.config.max_stake);
        let reserve: u64 = ((your_balance as u128) * 95 / 100) as u64;
        if clamped > reserve {
            reserve
        } else {
            clamped
        }
    }

    /// Share count purchasable for `usd_amount` at `price`, both in
    /// micro-units; 0 when the price is 0 (guards the division).
    pub fn shares_from_usd(&self, usd_amount: u64, price: u64) -> (shares: u64)
        requires
            price > 0 ==> (usd_amount as int) * (MICRO as int) / (price as int) <= u64::MAX,
        ensures
            price == 0 ==> shares == 0,
            price > 0 ==> shares == (usd_amount as int) * (MICRO as int) / (price as int),
    {
        if price == 0 {
            return 0;
        }
        proof {
            lemma_u64_mul_fits(usd_amount as int, MICRO as int);
        }
        ((usd_amount as u128) * (MICRO as u128) / (price as u128)) as u64
    }
}

} // verus!
