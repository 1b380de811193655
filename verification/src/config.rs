//! Configuration validation: the checks that must pass before any watcher
//! starts. Loading values from the environment is the caller's business;
//! the rules about them live here.

use vstd::prelude::*;
use crate::types::Config;
use vstd::string::StrSliceExecFns;

verus! {

/// Why a configuration was refused; the checks run in this order and the
/// first failing one wins.
#[derive(Clone, Copy, PartialEq, Eq, Structural, Debug)]
pub enum ConfigError {
    NoTrackedWallets,
    OwnWalletMissing,
    InvalidCredential,
    FixedStakeBelowMin,
    MaxStakeBelowMin,
}

/// The ordered validation rules: at least one tracked wallet, an own wallet,
/// a credential of at least 64 characters, and stakes consistent with the
/// minimum stake.
pub open spec fn spec_validate(cfg: Config) -> Result<(), ConfigError> {
    if cfg.wallets_to_track@.len() == 0 {
        Err(ConfigError::NoTrackedWallets)
    } else if cfg.your_wallet@.len() == 0 {
        Err(ConfigError::OwnWalletMissing)
    } else if cfg.private_key@.len() < 64 {
        Err(ConfigError::InvalidCredential)
    } else if cfg.fixed_stake < cfg.min_stake {
        Err(ConfigError::FixedStakeBelowMin)
    } else if cfg.max_stake < cfg.min_stake {
        Err(ConfigError::MaxStakeBelowMin)
    } else {
        Ok(())
    }
}

/// Validate a configuration, failing fast on the first broken rule.
pub fn validate_config(config: &Config) -> (r: Result<(), ConfigError>)
    ensures
        r == spec_validate(*config),
{
    if config.wallets_to_track.len() == 0 {
        return Err(ConfigError::NoTrackedWallets);
    }
    if config.your_wallet.as_str().unicode_len() == 0 {
        return Err(ConfigError::OwnWalletMissing);
    }
    if config.private_key.as_str().unicode_len() < 64 {
        return Err(ConfigError::InvalidCredential);
    }
    if config.fixed_stake < config.min_stake {
        return Err(ConfigError::FixedStakeBelowMin);
    }
    if config.max_stake < config.min_stake {
        return Err(ConfigError::MaxStakeBelowMin);
    }
    Ok(())
}

} // verus!
