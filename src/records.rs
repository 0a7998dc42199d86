use vstd::prelude::*;
use crate::engine::{failed_record, order_for};
use crate::types::{
    FailureReason, OrderKind, OrderRequest, OrderSide, RejectReason, TradeIntent, TradeRecord,
    TradeStatus,
};

verus! {

/// The text stored for a risk-gate refusal.
pub open spec fn reject_text(r: RejectReason) -> Seq<char> {
    match r {
        RejectReason::SlippageExceeded => "Slippage exceeded"@,
        RejectReason::InsufficientLiquidity => "Insufficient liquidity"@,
        RejectReason::BelowStopLoss => "Below stop-loss"@,
        RejectReason::AboveTakeProfit => "Above take-profit"@,
        RejectReason::MarketDataUnavailable => "Market data unavailable"@,
    }
}

/// The text stored in a failed record's reason column. Transport errors keep
/// their raw message; a failed snapshot fetch says so before it.
pub open spec fn reason_text(r: FailureReason) -> Seq<char> {
    match r {
        FailureReason::InvalidIntent => "Invalid intent"@,
        FailureReason::Rejected(x) => reject_text(x),
        FailureReason::MarketDataUnavailable(e) => "Market data unavailable: "@ + e@,
        FailureReason::ExecutionFailed(e) => e@,
    }
}

/// Transport failures may be retried by a reconciliation job; policy
/// refusals and malformed intents need an operator.
pub open spec fn reason_is_retryable(r: FailureReason) -> bool {
    match r {
        FailureReason::MarketDataUnavailable(_) => true,
        FailureReason::ExecutionFailed(_) => true,
        FailureReason::Rejected(x) => x == RejectReason::MarketDataUnavailable,
        FailureReason::InvalidIntent => false,
    }
}

impl RejectReason {
    pub fn describe(&self) -> (r: String)
        ensures
            r@ == reject_text(*self),
    {
        match self {
            RejectReason::SlippageExceeded => String::from_str("Slippage exceeded"),
            RejectReason::InsufficientLiquidity => String::from_str("Insufficient liquidity"),
            RejectReason::BelowStopLoss => String::from_str("Below stop-loss"),
            RejectReason::AboveTakeProfit => String::from_str("Above take-profit"),
            RejectReason::MarketDataUnavailable => String::from_str("Market data unavailable"),
        }
    }
}

impl FailureReason {
    pub fn describe(&self) -> (r: String)
        ensures
            r@ == reason_text(*self),
    {
        match self {
            FailureReason::InvalidIntent => String::from_str("Invalid intent"),
            FailureReason::Rejected(x) => x.describe(),
            FailureReason::MarketDataUnavailable(e) => {
                String::from_str("Market data unavailable: ").concat(e.as_str())
            },
            FailureReason::ExecutionFailed(e) => e.clone(),
        }
    }

    pub fn is_retryable(&self) -> (r: bool)
        ensures
            r == reason_is_retryable(*self),
    {
        match self {
            FailureReason::MarketDataUnavailable(_) => true,
            FailureReason::ExecutionFailed(_) => true,
            FailureReason::Rejected(x) => match x {
                RejectReason::MarketDataUnavailable => true,
                _ => false,
            },
            FailureReason::InvalidIntent => false,
        }
    }
}

/// The order that a retry of a failed record submits again: the same BUY
/// LIMIT, without a new risk evaluation. A successful record has nothing to retry.
pub open spec fn retry_order_of(record: TradeRecord) -> Option<OrderRequest> {
    if record.status == TradeStatus::Success {
        None
    } else {
        Some(
            OrderRequest {
                symbol: record.symbol,
                side: OrderSide::Buy,
                kind: OrderKind::Limit,
                quantity: record.amount,
                price: record.price,
            },
        )
    }
}

/// The order to submit again for a failed record.
pub fn retry_failed_trade(record: &TradeRecord) -> (r: Option<OrderRequest>)
    ensures
        r == retry_order_of(*record),
{
    match record.status {
        TradeStatus::Success => None,
        TradeStatus::Failed => Some(
            OrderRequest {
                symbol: record.symbol.clone(),
                side: OrderSide::Buy,
                kind: OrderKind::Limit,
                quantity: record.amount,
                price: record.price,
            },
        ),
    }
}

/// Retrying the failed record of an attempt submits the very order that the
/// attempt would have placed.
pub proof fn lemma_retry_resubmits_same_order(intent: TradeIntent, reason: FailureReason)
    ensures
        retry_order_of(failed_record(intent, reason)) == Some(order_for(intent)),
{
}

} // verus!
