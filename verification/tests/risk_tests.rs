use polymarket_copy_bot::risk::{RiskError, RiskManager};
use polymarket_copy_bot::types::{Config, Market, Trade, TradeSide};
use polymarket_copy_bot::MICRO;

fn make_trade(event_id: &str, market_id: &str) -> Trade {
    Trade {
        wallet: "0xwhale".to_string(),
        event_id: event_id.to_string(),
        market_id: market_id.to_string(),
        side: TradeSide::BUY,
        shares: 100 * MICRO,
        price: MICRO / 2,
        timestamp: 0,
        tx_hash: None,
    }
}

fn make_market(id: &str, event_id: &str, liquidity: u64) -> Market {
    Market {
        id: id.to_string(),
        event_id: event_id.to_string(),
        question: "will it happen".to_string(),
        yes_price: MICRO / 2,
        no_price: MICRO / 2,
        liquidity,
        volume_24h: 0,
    }
}

#[test]
fn test_circuit_breaker() {
    let config = Config {
        cb_consecutive_trigger: 3,
        max_daily_volume: 1000 * MICRO,
        max_exposure_per_event: 500 * MICRO,
        min_liquidity: 100 * MICRO,
        cb_min_depth_usd: 50 * MICRO,
        wallets_to_track: vec!["0xwhale".to_string()],
        ..Default::default()
    };

    let mut risk = RiskManager::new(config);

    risk.record_error("Test error 1");
    assert!(!risk.get_state().is_tripped);

    risk.record_error("Test error 2");
    assert!(!risk.get_state().is_tripped);

    risk.record_error("Test error 3");
    assert!(risk.get_state().is_tripped);

    risk.reset_circuit_breaker();
    assert!(!risk.get_state().is_tripped);
}

#[test]
fn test_circuit_breaker_trips() {
    let config = Config {
        wallets_to_track: vec![],
        your_wallet: "0x123".to_string(),
        private_key: "abc".to_string(),
        polymarket_api: "".to_string(),
        ws_url: "".to_string(),
        rpc_url: "".to_string(),
        sizing_mode: polymarket_copy_bot::types::SizingMode::Fixed,
        fixed_stake: 25 * MICRO,
        proportional_ratio: MICRO / 50,
        min_stake: 5 * MICRO,
        max_stake: 100 * MICRO,
        max_exposure_per_event: 500 * MICRO,
        max_daily_volume: 2000 * MICRO,
        min_liquidity: 1000 * MICRO,
        cb_consecutive_trigger: 3,
        cb_min_depth_usd: 100 * MICRO,
        retry_attempts: 4,
        retry_delay_ms: 500,
    };

    let mut risk = RiskManager::new(config);

    risk.record_error("Test error 1");
    assert!(!risk.get_state().is_tripped);

    risk.record_error("Test error 2");
    assert!(!risk.get_state().is_tripped);

    risk.record_error("Test error 3");
    assert!(risk.get_state().is_tripped);
}

#[test]
fn test_circuit_breaker_reset() {
    let config = Config { cb_consecutive_trigger: 2, ..Default::default() };

    let mut risk = RiskManager::new(config);

    risk.record_error("Error 1");
    risk.record_error("Error 2");
    assert!(risk.get_state().is_tripped);

    risk.reset_circuit_breaker();
    assert!(!risk.get_state().is_tripped);
}

#[test]
fn test_risk_limits() {
    let config = Config { max_exposure_per_event: 500 * MICRO, ..Default::default() };
    let mut risk = RiskManager::new(config);
    let trade = make_trade("event1", "market1");
    let market = make_market("market1", "event1", 5000 * MICRO);

    risk.record_trade(&trade, 300 * MICRO);

    // Should fail - exceeds limit (300 + 250 = 550 > 500)
    let exceeds = risk.check_can_trade(&trade, &market, 250 * MICRO);
    assert!(
        matches!(exceeds, Err(RiskError::EventExposureExceeded)),
        "Trade should be rejected when exceeding limit"
    );

    let within = risk.check_can_trade(&trade, &market, 100 * MICRO);
    assert!(within.is_ok(), "Trade should be accepted when within limit");
}

#[test]
fn test_breaker_reported_before_volume() {
    // breaker tripped AND daily volume exceeded: the breaker wins
    let config = Config {
        cb_consecutive_trigger: 1,
        max_daily_volume: 10 * MICRO,
        ..Default::default()
    };
    let mut risk = RiskManager::new(config);
    let trade = make_trade("event1", "market1");
    let market = make_market("market1", "event1", 5000 * MICRO);

    risk.record_error("boom");
    assert!(risk.get_state().is_tripped);

    // 100 USD would also exceed the 10 USD daily volume limit
    let verdict = risk.check_can_trade(&trade, &market, 100 * MICRO);
    match verdict {
        Err(RiskError::BreakerTripped(reason)) => assert_eq!(reason, "boom"),
        other => panic!("expected BreakerTripped, got {:?}", other.is_ok()),
    }
}

#[test]
fn test_daily_volume_and_liquidity_errors() {
    let config = Config {
        max_daily_volume: 100 * MICRO,
        min_liquidity: 1000 * MICRO,
        cb_min_depth_usd: 100 * MICRO,
        max_exposure_per_event: 10000 * MICRO,
        ..Default::default()
    };
    let mut risk = RiskManager::new(config);
    let trade = make_trade("event1", "market1");

    let market = make_market("market1", "event1", 5000 * MICRO);
    let too_big = risk.check_can_trade(&trade, &market, 150 * MICRO);
    assert!(matches!(too_big, Err(RiskError::DailyVolumeExceeded)));

    let illiquid = make_market("market1", "event1", 500 * MICRO);
    let refused = risk.check_can_trade(&trade, &illiquid, 50 * MICRO);
    assert!(matches!(refused, Err(RiskError::InsufficientLiquidity)));

    let shallow_config = Config {
        min_liquidity: 100 * MICRO,
        cb_min_depth_usd: 1000 * MICRO,
        ..Default::default()
    };
    let shallow_risk = RiskManager::new(shallow_config);
    let shallow = make_market("market1", "event1", 500 * MICRO);
    let refused_depth = shallow_risk.check_can_trade(&trade, &shallow, 50 * MICRO);
    assert!(matches!(refused_depth, Err(RiskError::InsufficientDepth)));

    risk.record_error("e1");
    risk.record_error("e2");
    assert_eq!(risk.get_state().consecutive_errors, 2);
    risk.record_trade(&trade, 10 * MICRO);
    assert_eq!(risk.get_state().consecutive_errors, 0);
}

#[test]
fn test_exposure_accumulates_per_group() {
    let mut risk = RiskManager::new(Config {
        max_exposure_per_event: 10000 * MICRO,
        max_daily_volume: 100000 * MICRO,
        ..Default::default()
    });
    let a1 = make_trade("group_a", "m1");
    let a2 = make_trade("group_a", "m2");
    let b = make_trade("group_b", "m3");

    risk.record_trade(&a1, 100 * MICRO);
    risk.record_trade(&b, 40 * MICRO);
    risk.record_trade(&a2, 60 * MICRO);

    assert_eq!(risk.event_exposure.total_for("group_a"), 160 * MICRO);
    assert_eq!(risk.event_exposure.total_for("group_b"), 40 * MICRO);
    assert_eq!(risk.event_exposure.total_for("group_c"), 0);
    assert_eq!(risk.get_state().total_trades_today, 3);
    assert_eq!(risk.get_state().total_volume_today, 200 * MICRO);
}

#[test]
fn test_daily_reset_is_idempotent_and_keeps_breaker() {
    let mut risk = RiskManager::new(Config { cb_consecutive_trigger: 1, ..Default::default() });
    let trade = make_trade("group_a", "m1");
    risk.record_trade(&trade, 100 * MICRO);
    risk.record_error("boom");
    assert!(risk.get_state().is_tripped);

    risk.reset_daily_stats();
    let once = risk.get_state();
    let once_exposure = risk.event_exposure.total_for("group_a");

    risk.reset_daily_stats();
    let twice = risk.get_state();
    let twice_exposure = risk.event_exposure.total_for("group_a");

    assert_eq!(once.total_trades_today, 0);
    assert_eq!(once.total_volume_today, 0);
    assert_eq!(once_exposure, 0);
    assert_eq!(twice.total_trades_today, once.total_trades_today);
    assert_eq!(twice.total_volume_today, once.total_volume_today);
    assert_eq!(twice_exposure, once_exposure);
    assert!(once.is_tripped);
    assert!(twice.is_tripped);
    assert_eq!(once.consecutive_errors, twice.consecutive_errors);
}

#[test]
fn test_success_resets_error_count_before_trigger() {
    let mut risk = RiskManager::new(Config { cb_consecutive_trigger: 3, ..Default::default() });
    let trade = make_trade("event1", "market1");

    risk.record_error("e1");
    risk.record_error("e2");
    risk.record_trade(&trade, 10 * MICRO);
    risk.record_error("e3");
    risk.record_error("e4");
    assert!(!risk.get_state().is_tripped);
    risk.record_error("e5");
    assert!(risk.get_state().is_tripped);
}

#[test]
fn test_is_whale_verified() {
    let risk = RiskManager::new(Config {
        wallets_to_track: vec!["0xwhale".to_string(), "0xother".to_string()],
        ..Default::default()
    });
    assert!(risk.is_whale_verified("0xwhale"));
    assert!(risk.is_whale_verified("0xother"));
    assert!(!risk.is_whale_verified("0xnobody"));
}
