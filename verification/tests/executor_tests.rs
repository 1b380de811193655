use polymarket_copy_bot::executor::{
    parse_order_status, AttemptOutcome, ExecutionError, TradeExecutor,
};
use polymarket_copy_bot::types::{Config, OrderResponse, OrderStatus, OrderType, Trade, TradeSide};
use polymarket_copy_bot::MICRO;

fn make_trade(side: TradeSide) -> Trade {
    Trade {
        wallet: "0xwhale".to_string(),
        event_id: "event1".to_string(),
        market_id: "market1".to_string(),
        side,
        shares: 100 * MICRO,
        price: MICRO / 2,
        timestamp: 0,
        tx_hash: None,
    }
}

fn response(status: OrderStatus) -> AttemptOutcome {
    AttemptOutcome::Response(OrderResponse {
        order_id: "ord-1".to_string(),
        status,
        filled_shares: 100 * MICRO,
        avg_fill_price: MICRO / 2,
    })
}

fn transport(msg: &str) -> AttemptOutcome {
    AttemptOutcome::Transport(msg.to_string())
}

fn executor() -> TradeExecutor {
    TradeExecutor::new(Config { retry_attempts: 4, retry_delay_ms: 500, ..Default::default() })
}

#[test]
fn test_retry_exhausts_with_linear_backoff() {
    // always-transient transport errors: exactly 4 attempts, sleeping
    // 500 ms, 1000 ms and 1500 ms between them
    let exec = executor();
    let outcomes = vec![transport("t1"), transport("t2"), transport("t3"), transport("t4")];
    let (result, delays) = exec.run_retry_schedule(&outcomes);
    match result {
        Err(ExecutionError::Exhausted { attempts, last_transport }) => {
            assert_eq!(attempts, 4);
            assert_eq!(last_transport.as_deref(), Some("t4"));
        }
        _ => panic!("expected exhaustion"),
    }
    assert_eq!(delays, vec![500, 1000, 1500]);
}

#[test]
fn test_terminal_rejection_short_circuits() {
    // a rejected order on attempt 1 of 4: immediate failure, no sleeps
    let exec = executor();
    let outcomes = vec![
        response(OrderStatus::Rejected),
        response(OrderStatus::Filled),
        response(OrderStatus::Filled),
        response(OrderStatus::Filled),
    ];
    let (result, delays) = exec.run_retry_schedule(&outcomes);
    match result {
        Err(ExecutionError::Terminal { status, order_id }) => {
            assert_eq!(status, OrderStatus::Rejected);
            assert_eq!(order_id, "ord-1");
        }
        _ => panic!("expected terminal failure"),
    }
    assert!(delays.is_empty());
}

#[test]
fn test_retry_succeeds_after_transients() {
    let exec = executor();
    let outcomes = vec![
        transport("t1"),
        response(OrderStatus::Pending),
        response(OrderStatus::PartiallyFilled),
        response(OrderStatus::Filled),
    ];
    let (result, delays) = exec.run_retry_schedule(&outcomes);
    match result {
        Ok(resp) => assert_eq!(resp.status, OrderStatus::PartiallyFilled),
        _ => panic!("expected success on the third attempt"),
    }
    assert_eq!(delays, vec![500, 1000]);
}

#[test]
fn test_pending_responses_exhaust_without_transport_error() {
    let exec = executor();
    let outcomes = vec![
        response(OrderStatus::Pending),
        response(OrderStatus::Pending),
        response(OrderStatus::Pending),
        response(OrderStatus::Pending),
    ];
    let (result, delays) = exec.run_retry_schedule(&outcomes);
    match result {
        Err(ExecutionError::Exhausted { attempts, last_transport }) => {
            assert_eq!(attempts, 4);
            assert!(last_transport.is_none());
        }
        _ => panic!("expected exhaustion"),
    }
    assert_eq!(delays, vec![500, 1000, 1500]);
}

#[test]
fn test_single_attempt_budget_never_sleeps() {
    let exec = TradeExecutor::new(Config {
        retry_attempts: 1,
        retry_delay_ms: 500,
        ..Default::default()
    });
    let outcomes = vec![transport("only")];
    let (result, delays) = exec.run_retry_schedule(&outcomes);
    match result {
        Err(ExecutionError::Exhausted { attempts, last_transport }) => {
            assert_eq!(attempts, 1);
            assert_eq!(last_transport.as_deref(), Some("only"));
        }
        _ => panic!("expected exhaustion"),
    }
    assert!(delays.is_empty());
}

#[test]
fn test_order_for_trade_picks_order_type_by_side() {
    let exec = executor();
    let buy = exec.order_for_trade(&make_trade(TradeSide::BUY), 10 * MICRO);
    assert_eq!(buy.order_type, OrderType::FAK);
    assert_eq!(buy.side, TradeSide::BUY);
    assert_eq!(buy.market_id, "market1");
    assert_eq!(buy.shares, 10 * MICRO);
    assert_eq!(buy.price, Some(MICRO / 2));

    let sell = exec.order_for_trade(&make_trade(TradeSide::SELL), 10 * MICRO);
    assert_eq!(sell.order_type, OrderType::GTD);
    assert_eq!(sell.side, TradeSide::SELL);
}

#[test]
fn test_market_order_refuses_zero_price() {
    let exec = executor();
    let mut trade = make_trade(TradeSide::BUY);
    trade.price = 0;
    assert!(matches!(
        exec.market_order_for(&trade, 10 * MICRO),
        Err(ExecutionError::InvalidPrice)
    ));

    let priced = make_trade(TradeSide::BUY);
    let order = exec.market_order_for(&priced, 10 * MICRO).unwrap();
    // 10 USD at 0.5: 20 shares, as a market order without a price
    assert_eq!(order.shares, 20 * MICRO);
    assert_eq!(order.price, None);
    assert_eq!(order.order_type, OrderType::MARKET);
}

#[test]
fn test_closing_order_inverts_side() {
    let exec = executor();
    let close_buy = exec.closing_order("market1", 10 * MICRO, TradeSide::BUY);
    assert_eq!(close_buy.side, TradeSide::SELL);
    assert_eq!(close_buy.order_type, OrderType::MARKET);
    assert_eq!(close_buy.price, None);
    assert_eq!(close_buy.shares, 10 * MICRO);

    let close_sell = exec.closing_order("market1", 10 * MICRO, TradeSide::SELL);
    assert_eq!(close_sell.side, TradeSide::BUY);
}

#[test]
fn test_estimated_price_reads_book_or_falls_back() {
    let exec = executor();
    let bids = vec![(400_000u64, 50 * MICRO), (390_000u64, 10 * MICRO)];
    let asks = vec![(420_000u64, 30 * MICRO)];
    assert_eq!(exec.estimated_price(&bids, &asks, TradeSide::BUY), 420_000);
    assert_eq!(exec.estimated_price(&bids, &asks, TradeSide::SELL), 400_000);

    let empty: Vec<(u64, u64)> = vec![];
    assert_eq!(exec.estimated_price(&empty, &empty, TradeSide::BUY), MICRO / 2);
    assert_eq!(exec.estimated_price(&empty, &empty, TradeSide::SELL), MICRO / 2);
}

#[test]
fn test_parse_order_status() {
    assert_eq!(parse_order_status("filled"), OrderStatus::Filled);
    assert_eq!(parse_order_status("partially_filled"), OrderStatus::PartiallyFilled);
    assert_eq!(parse_order_status("cancelled"), OrderStatus::Cancelled);
    assert_eq!(parse_order_status("rejected"), OrderStatus::Rejected);
    assert_eq!(parse_order_status("open"), OrderStatus::Pending);
    assert_eq!(parse_order_status(""), OrderStatus::Pending);
}
