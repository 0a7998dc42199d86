use vstd::prelude::*;

verus! {

/// One basis point is a ten-thousandth; tolerances are given in basis points.
pub const BPS_SCALE: u64 = 10_000;

/// Slippage tolerance used when an intent names none: 1%.
pub const DEFAULT_TOLERANCE_BPS: u64 = 100;

/// One level of the bid ladder. Prices and quantities throughout are
/// fixed-point with eight decimals (see `decimal::UNIT`).
#[derive(Clone, Copy, Debug, PartialEq, Eq, Structural)]
pub struct Level {
    pub price: u64,
    pub volume: u64,
}

/// A request to buy `amount` of `symbol` at `target_price`.
#[derive(Clone, Debug, PartialEq, Eq)]
pub struct TradeIntent {
    pub user: String,
    pub symbol: String,
    pub amount: u64,
    pub target_price: u64,
    /// Allowed deviation of the market price, in basis points of the target.
    pub tolerance_bps: Option<u64>,
    pub stop_loss: Option<u64>,
    pub take_profit: Option<u64>,
}

/// The current price and the bid ladder, best bid first.
#[derive(Clone, Debug, PartialEq, Eq)]
pub struct MarketSnapshot {
    pub price: u64,
    pub bids: Vec<Level>,
}

#[derive(Clone, Copy, Debug, PartialEq, Eq, Structural)]
pub enum RejectReason {
    SlippageExceeded,
    InsufficientLiquidity,
    BelowStopLoss,
    AboveTakeProfit,
    MarketDataUnavailable,
}

#[derive(Clone, Copy, Debug, PartialEq, Eq, Structural)]
pub enum TradeDecision {
    Accepted,
    Rejected(RejectReason),
}

#[derive(Clone, Copy, Debug, PartialEq, Eq, Structural)]
pub enum OrderSide {
    Buy,
    Sell,
}

#[derive(Clone, Copy, Debug, PartialEq, Eq, Structural)]
pub enum OrderKind {
    Limit,
    Market,
}

/// An order to be handed to the exchange.
#[derive(Clone, Debug, PartialEq, Eq)]
pub struct OrderRequest {
    pub symbol: String,
    pub side: OrderSide,
    pub kind: OrderKind,
    pub quantity: u64,
    pub price: u64,
}

/// Why an attempt ended without an executed order.
#[derive(Clone, Debug, PartialEq, Eq)]
pub enum FailureReason {
    /// The intent itself is degenerate (zero amount or zero target price).
    InvalidIntent,
    /// A risk gate refused the trade.
    Rejected(RejectReason),
    /// Fetching the market snapshot failed; carries the transport error.
    MarketDataUnavailable(String),
    /// Submitting the order failed; carries the raw exchange error.
    ExecutionFailed(String),
}

#[derive(Clone, Copy, Debug, PartialEq, Eq, Structural)]
pub enum TradeStatus {
    Success,
    Failed,
}

/// The durable trace of one execution attempt. The store stamps the time.
#[derive(Clone, Debug, PartialEq, Eq)]
pub struct TradeRecord {
    pub user: String,
    pub symbol: String,
    pub amount: u64,
    pub price: u64,
    pub status: TradeStatus,
    pub reason: Option<FailureReason>,
}

} // verus!
