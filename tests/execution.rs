use trade_gate::engine::{after_market_data, after_submission, begin, order_request, Step, BOOK_DEPTH};
use trade_gate::records::retry_failed_trade;
use trade_gate::types::{
    FailureReason, Level, MarketSnapshot, OrderKind, OrderRequest, OrderSide, RejectReason,
    TradeIntent, TradeRecord, TradeStatus,
};

const UNIT: u64 = 100_000_000;

fn intent(amount: u64, target: u64, tol: u64, stop: Option<u64>, take: Option<u64>) -> TradeIntent {
    TradeIntent {
        user: "0xMockUser".to_string(),
        symbol: "BTCUSDT".to_string(),
        amount,
        target_price: target,
        tolerance_bps: Some(tol),
        stop_loss: stop,
        take_profit: take,
    }
}

/// Drives one attempt through the steps, answering each request from the
/// given outcomes; returns the records appended and the orders submitted.
fn drive(
    i: &TradeIntent,
    market: Result<MarketSnapshot, String>,
    exchange: Result<String, String>,
) -> (Vec<TradeRecord>, Vec<OrderRequest>) {
    let mut records = Vec::new();
    let mut orders = Vec::new();
    let mut market = Some(market);
    let mut exchange = Some(exchange);
    let mut step = begin(i, BOOK_DEPTH);
    loop {
        match step {
            Step::FetchMarket { symbol, depth } => {
                assert_eq!(symbol, i.symbol);
                assert_eq!(depth, 10);
                step = after_market_data(i, market.take().unwrap());
            }
            Step::Submit(order) => {
                orders.push(order);
                step = Step::Record(after_submission(i, exchange.take().unwrap()));
            }
            Step::Record(r) => {
                records.push(r);
                break;
            }
        }
    }
    (records, orders)
}

fn book(price: u64, volume: u64) -> MarketSnapshot {
    MarketSnapshot { price, bids: vec![Level { price, volume }] }
}

#[test]
fn accepted_intent_submits_one_buy_limit_order() {
    let i = intent(UNIT, 20000 * UNIT, 100, Some(19000 * UNIT), Some(21000 * UNIT));
    let (records, orders) = drive(&i, Ok(book(20000 * UNIT, 2 * UNIT)), Ok("{\"orderId\":1}".to_string()));
    assert_eq!(
        orders,
        vec![OrderRequest {
            symbol: "BTCUSDT".to_string(),
            side: OrderSide::Buy,
            kind: OrderKind::Limit,
            quantity: UNIT,
            price: 20000 * UNIT,
        }]
    );
    assert_eq!(records.len(), 1);
    assert_eq!(records[0].status, TradeStatus::Success);
    assert_eq!(records[0].reason, None);
    assert_eq!(records[0].amount, UNIT);
    assert_eq!(records[0].price, 20000 * UNIT);
    assert_eq!(records[0].user, "0xMockUser");
}

#[test]
fn exchange_error_is_recorded_with_raw_message() {
    let i = intent(UNIT, 20000 * UNIT, 100, None, None);
    let (records, orders) = drive(&i, Ok(book(20000 * UNIT, 2 * UNIT)), Err("HTTP 503".to_string()));
    assert_eq!(orders.len(), 1);
    assert_eq!(records.len(), 1);
    assert_eq!(records[0].status, TradeStatus::Failed);
    assert_eq!(records[0].reason, Some(FailureReason::ExecutionFailed("HTTP 503".to_string())));
    assert_eq!(records[0].reason.as_ref().unwrap().describe(), "HTTP 503");
}

#[test]
fn price_fetch_timeout_records_market_data_unavailable() {
    let i = intent(UNIT, 20000 * UNIT, 100, None, None);
    let (records, orders) = drive(&i, Err("operation timed out".to_string()), Ok(String::new()));
    assert!(orders.is_empty());
    assert_eq!(records.len(), 1);
    assert_eq!(records[0].status, TradeStatus::Failed);
    assert_eq!(
        records[0].reason,
        Some(FailureReason::MarketDataUnavailable("operation timed out".to_string()))
    );
    assert!(records[0].reason.as_ref().unwrap().is_retryable());
}

#[test]
fn slippage_rejection_submits_nothing() {
    let i = intent(UNIT, 20000 * UNIT, 100, None, None);
    let (records, orders) = drive(&i, Ok(book(20500 * UNIT, 2 * UNIT)), Ok(String::new()));
    assert!(orders.is_empty());
    assert_eq!(records.len(), 1);
    assert_eq!(records[0].reason, Some(FailureReason::Rejected(RejectReason::SlippageExceeded)));
    assert!(!records[0].reason.as_ref().unwrap().is_retryable());
}

#[test]
fn liquidity_rejection_submits_nothing() {
    let i = intent(UNIT, 20000 * UNIT, 500, None, None);
    let (records, orders) = drive(&i, Ok(book(20000 * UNIT, 30_000_000)), Ok(String::new()));
    assert!(orders.is_empty());
    assert_eq!(
        records[0].reason,
        Some(FailureReason::Rejected(RejectReason::InsufficientLiquidity))
    );
    assert_eq!(records[0].reason.as_ref().unwrap().describe(), "Insufficient liquidity");
}

#[test]
fn stop_loss_rejection_submits_nothing() {
    let i = intent(UNIT, 29000 * UNIT, 500, Some(30000 * UNIT), None);
    let (records, orders) = drive(&i, Ok(book(29000 * UNIT, 2 * UNIT)), Ok(String::new()));
    assert!(orders.is_empty());
    assert_eq!(records[0].reason, Some(FailureReason::Rejected(RejectReason::BelowStopLoss)));
}

#[test]
fn degenerate_intent_never_reaches_the_network() {
    let i = intent(0, 20000 * UNIT, 100, None, None);
    match begin(&i, BOOK_DEPTH) {
        Step::Record(r) => {
            assert_eq!(r.status, TradeStatus::Failed);
            assert_eq!(r.reason, Some(FailureReason::InvalidIntent));
        }
        other => panic!("unexpected step {:?}", other),
    }
    let j = intent(UNIT, 0, 100, None, None);
    assert!(matches!(begin(&j, BOOK_DEPTH), Step::Record(_)));
}

#[test]
fn reason_texts() {
    assert_eq!(FailureReason::InvalidIntent.describe(), "Invalid intent");
    assert_eq!(
        FailureReason::MarketDataUnavailable("timeout".to_string()).describe(),
        "Market data unavailable: timeout"
    );
    assert_eq!(RejectReason::SlippageExceeded.describe(), "Slippage exceeded");
    assert_eq!(RejectReason::BelowStopLoss.describe(), "Below stop-loss");
    assert_eq!(RejectReason::AboveTakeProfit.describe(), "Above take-profit");
    assert!(!FailureReason::InvalidIntent.is_retryable());
    assert!(FailureReason::Rejected(RejectReason::MarketDataUnavailable).is_retryable());
}

#[test]
fn retry_resubmits_the_failed_order() {
    let i = intent(UNIT, 20000 * UNIT, 100, None, None);
    let failed = after_submission(&i, Err("HTTP 503".to_string()));
    assert_eq!(retry_failed_trade(&failed), Some(order_request(&i)));
    let done = after_submission(&i, Ok("{}".to_string()));
    assert_eq!(retry_failed_trade(&done), None);
}
