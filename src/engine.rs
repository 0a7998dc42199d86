use vstd::prelude::*;
use crate::risk::{decision_of, evaluate};
use crate::types::{
    FailureReason, MarketSnapshot, OrderKind, OrderRequest, OrderSide, TradeDecision, TradeIntent,
    TradeRecord, TradeStatus,
};

verus! {

/// Number of order-book levels fetched for each snapshot.
pub const BOOK_DEPTH: u32 = 10;

/// What the engine asks its caller to do next for one intent.
#[derive(Clone, Debug, PartialEq, Eq)]
pub enum Step {
    /// Fetch the price and the top `depth` bid levels of `symbol`.
    FetchMarket { symbol: String, depth: u32 },
    /// Submit this order to the exchange.
    Submit(OrderRequest),
    /// The attempt is over: append this record to the reconciliation store.
    Record(TradeRecord),
}

/// An intent is well formed when it asks for a positive amount at a positive price.
pub open spec fn intent_is_valid(intent: TradeIntent) -> bool {
    intent.amount > 0 && intent.target_price > 0
}

/// The order placed for an accepted intent: a BUY LIMIT for the amount at the target.
pub open spec fn order_for(intent: TradeIntent) -> OrderRequest {
    OrderRequest {
        symbol: intent.symbol,
        side: OrderSide::Buy,
        kind: OrderKind::Limit,
        quantity: intent.amount,
        price: intent.target_price,
    }
}

pub open spec fn success_record(intent: TradeIntent) -> TradeRecord {
    TradeRecord {
        user: intent.user,
        symbol: intent.symbol,
        amount: intent.amount,
        price: intent.target_price,
        status: TradeStatus::Success,
        reason: None,
    }
}

pub open spec fn failed_record(intent: TradeIntent, reason: FailureReason) -> TradeRecord {
    TradeRecord {
        user: intent.user,
        symbol: intent.symbol,
        amount: intent.amount,
        price: intent.target_price,
        status: TradeStatus::Failed,
        reason: Some(reason),
    }
}

pub open spec fn begin_step(intent: TradeIntent, depth: u32) -> Step {
    if intent_is_valid(intent) {
        Step::FetchMarket { symbol: intent.symbol, depth }
    } else {
        Step::Record(failed_record(intent, FailureReason::InvalidIntent))
    }
}

pub open spec fn market_step(intent: TradeIntent, market: Result<MarketSnapshot, String>) -> Step {
    match market {
        Err(e) => Step::Record(failed_record(intent, FailureReason::MarketDataUnavailable(e))),
        Ok(s) => match decision_of(intent, s.price, s.bids@) {
            TradeDecision::Accepted => Step::Submit(order_for(intent)),
            TradeDecision::Rejected(r) => Step::Record(
                failed_record(intent, FailureReason::Rejected(r)),
            ),
        },
    }
}

pub open spec fn submission_record(intent: TradeIntent, result: Result<String, String>) -> TradeRecord {
    match result {
        Ok(_) => success_record(intent),
        Err(e) => failed_record(intent, FailureReason::ExecutionFailed(e)),
    }
}

/// The steps of one attempt, given what the exchange answers when asked:
/// `market` to the snapshot fetch and `submitted` to the order submission.
pub open spec fn run_steps(
    intent: TradeIntent,
    depth: u32,
    market: Result<MarketSnapshot, String>,
    submitted: Result<String, String>,
) -> Seq<Step> {
    let first = begin_step(intent, depth);
    if first is Record {
        seq![first]
    } else {
        let second = market_step(intent, market);
        if second is Record {
            seq![first, second]
        } else {
            seq![first, second, Step::Record(submission_record(intent, submitted))]
        }
    }
}

fn failed(intent: &TradeIntent, reason: FailureReason) -> (r: TradeRecord)
    ensures
        r == failed_record(*intent, reason),
{
    TradeRecord {
        user: intent.user.clone(),
        symbol: intent.symbol.clone(),
        amount: intent.amount,
        price: intent.target_price,
        status: TradeStatus::Failed,
        reason: Some(reason),
    }
}

/// The order that executes an accepted intent.
pub fn order_request(intent: &TradeIntent) -> (r: OrderRequest)
    ensures
        r == order_for(*intent),
{
    OrderRequest {
        symbol: intent.symbol.clone(),
        side: OrderSide::Buy,
        kind: OrderKind::Limit,
        quantity: intent.amount,
        price: intent.target_price,
    }
}

/// First step for an intent: a degenerate intent is recorded as failed before
/// any network call, a well-formed one asks for a market snapshot.
pub fn begin(intent: &TradeIntent, depth: u32) -> (r: Step)
    ensures
        r == begin_step(*intent, depth),
{
    if intent.amount > 0 && intent.target_price > 0 {
        Step::FetchMarket { symbol: intent.symbol.clone(), depth }
    } else {
        Step::Record(failed(intent, FailureReason::InvalidIntent))
    }
}

/// Step after the snapshot fetch: a failed fetch or a refused trade ends the
/// attempt with a failed record, an accepted one asks to submit its order.
pub fn after_market_data(intent: &TradeIntent, market: Result<MarketSnapshot, String>) -> (r: Step)
    ensures
        r == market_step(*intent, market),
{
    match market {
        Err(e) => Step::Record(failed(intent, FailureReason::MarketDataUnavailable(e))),
        Ok(snapshot) => match evaluate(intent, &snapshot) {
            TradeDecision::Accepted => Step::Submit(order_request(intent)),
            TradeDecision::Rejected(reason) => Step::Record(
                failed(intent, FailureReason::Rejected(reason)),
            ),
        },
    }
}

/// The record of an attempt whose order was submitted: a success exactly when
/// the exchange confirmed it, else a failure carrying the raw error.
pub fn after_submission(intent: &TradeIntent, result: Result<String, String>) -> (r: TradeRecord)
    ensures
        r == submission_record(*intent, result),
{
    match result {
        Ok(_) => TradeRecord {
            user: intent.user.clone(),
            symbol: intent.symbol.clone(),
            amount: intent.amount,
            price: intent.target_price,
            status: TradeStatus::Success,
            reason: None,
        },
        Err(e) => failed(intent, FailureReason::ExecutionFailed(e)),
    }
}

/// Every attempt ends in exactly one record, its last step, and that record
/// is a success exactly when an order was submitted and the exchange confirmed it.
pub proof fn lemma_one_record_per_attempt(
    intent: TradeIntent,
    depth: u32,
    market: Result<MarketSnapshot, String>,
    submitted: Result<String, String>,
)
    ensures
        ({
            let s = run_steps(intent, depth, market, submitted);
            &&& s.len() >= 1
            &&& s.last() is Record
            &&& forall|j: int| 0 <= j < s.len() - 1 ==> !(s[j] is Record)
            &&& (s.last()->Record_0.status == TradeStatus::Success) <==> (
            (exists|j: int| 0 <= j < s.len() && s[j] is Submit) && submitted is Ok)
        }),
{
    let s = run_steps(intent, depth, market, submitted);
    if s.len() == 3 {
        assert(s[1] is Submit);
    }
}

/// An order is submitted exactly when a well-formed intent meets a snapshot
/// that the risk gates accept; there is then one submission, a BUY LIMIT for
/// the intent's amount at its target price.
pub proof fn lemma_accepted_submits_once(
    intent: TradeIntent,
    depth: u32,
    market: Result<MarketSnapshot, String>,
    submitted: Result<String, String>,
)
    ensures
        ({
            let s = run_steps(intent, depth, market, submitted);
            &&& (exists|j: int| 0 <= j < s.len() && s[j] is Submit) <==> (intent_is_valid(intent)
                && market is Ok && decision_of(intent, market->Ok_0.price, market->Ok_0.bids@)
                == TradeDecision::Accepted)
            &&& forall|j: int, k: int|
                0 <= j < s.len() && 0 <= k < s.len() && s[j] is Submit && s[k] is Submit ==> j == k
            &&& forall|j: int|
                0 <= j < s.len() && #[trigger] s[j] is Submit ==> {
                    let o = s[j]->Submit_0;
                    &&& o == order_for(intent)
                    &&& o.side == OrderSide::Buy
                    &&& o.kind == OrderKind::Limit
                    &&& o.quantity == intent.amount
                    &&& o.price == intent.target_price
                }
        }),
{
    let s = run_steps(intent, depth, market, submitted);
    if s.len() == 3 {
        assert(s[1] is Submit);
    }
}

} // verus!
