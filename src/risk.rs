use vstd::prelude::*;
use crate::types::{Level, MarketSnapshot, RejectReason, TradeDecision, TradeIntent, BPS_SCALE, DEFAULT_TOLERANCE_BPS};

verus! {

/// The tolerance that applies to an intent, in basis points.
pub open spec fn tolerance_of(intent: TradeIntent) -> nat {
    match intent.tolerance_bps {
        Some(t) => t as nat,
        None => DEFAULT_TOLERANCE_BPS as nat,
    }
}

pub open spec fn abs_diff(a: nat, b: nat) -> nat {
    if a >= b { (a - b) as nat } else { (b - a) as nat }
}

/// `|price - target| > tolerance * target`, with a zero target always refused.
pub open spec fn slippage_exceeded(intent: TradeIntent, price: u64) -> bool {
    intent.target_price == 0
        || abs_diff(price as nat, intent.target_price as nat) * BPS_SCALE
            > tolerance_of(intent) * intent.target_price
}

/// Total volume of the ladder's levels priced at or above `target`.
pub open spec fn eligible_volume(bids: Seq<Level>, target: u64) -> nat
    decreases bids.len(),
{
    if bids.len() == 0 {
        0
    } else {
        eligible_volume(bids.drop_last(), target) + if bids.last().price >= target {
            bids.last().volume as nat
        } else {
            0
        }
    }
}

/// The gates in their fixed order; the first that fails decides. A zero
/// market price is degenerate data: it is refused once slippage and
/// liquidity have passed, before the stop-loss and take-profit bounds.
pub open spec fn decision_of(intent: TradeIntent, price: u64, bids: Seq<Level>) -> TradeDecision {
    if slippage_exceeded(intent, price) {
        TradeDecision::Rejected(RejectReason::SlippageExceeded)
    } else if eligible_volume(bids, intent.target_price) < intent.amount {
        TradeDecision::Rejected(RejectReason::InsufficientLiquidity)
    } else if price == 0 {
        TradeDecision::Rejected(RejectReason::MarketDataUnavailable)
    } else if intent.stop_loss is Some && price < intent.stop_loss->0 {
        TradeDecision::Rejected(RejectReason::BelowStopLoss)
    } else if intent.take_profit is Some && price > intent.take_profit->0 {
        TradeDecision::Rejected(RejectReason::AboveTakeProfit)
    } else {
        TradeDecision::Accepted
    }
}

proof fn lemma_prefix_volume_le(bids: Seq<Level>, k: int, target: u64)
    requires
        0 <= k <= bids.len(),
    ensures
        eligible_volume(bids.take(k), target) <= eligible_volume(bids, target),
    decreases bids.len(),
{
    if k == bids.len() {
        assert(bids.take(k) =~= bids);
    } else {
        assert(bids.take(k) =~= bids.drop_last().take(k));
        lemma_prefix_volume_le(bids.drop_last(), k, target);
    }
}

/// Whether the levels priced at or above `target` hold at least `amount`.
/// Walks the ladder in order and stops as soon as enough volume is found.
pub fn has_liquidity(bids: &Vec<Level>, target: u64, amount: u64) -> (r: bool)
    ensures
        r == (eligible_volume(bids@, target) >= amount),
{
    let mut acc: u128 = 0;
    let mut i: usize = 0;
    while i < bids.len() && acc < amount as u128
        invariant
            i <= bids.len(),
            acc == eligible_volume(bids@.take(i as int), target),
            acc <= 2 * (u64::MAX as u128),
        decreases bids.len() - i,
    {
        let level = bids[i];
        assert(bids@.take(i + 1).drop_last() =~= bids@.take(i as int));
        if level.price >= target {
            acc = acc + level.volume as u128;
        }
        i += 1;
    }
    proof {
        if acc >= amount {
            lemma_prefix_volume_le(bids@, i as int, target);
        } else {
            assert(bids@.take(i as int) =~= bids@);
        }
    }
    acc >= amount as u128
}

/// Whether the market price strays from the target by more than the tolerance.
pub fn exceeds_slippage(intent: &TradeIntent, price: u64) -> (r: bool)
    ensures
        r == slippage_exceeded(*intent, price),
{
    if intent.target_price == 0 {
        return true;
    }
    let tolerance: u64 = match intent.tolerance_bps {
        Some(t) => t,
        None => DEFAULT_TOLERANCE_BPS,
    };
    let diff: u64 = if price >= intent.target_price {
        price - intent.target_price
    } else {
        intent.target_price - price
    };
    proof {
        let (d, t, p) = (diff as int, tolerance as int, intent.target_price as int);
        assert(0 <= d * 10000 <= 0xffff_ffff_ffff_ffff * 10000) by (nonlinear_arith)
            requires
                0 <= d <= 0xffff_ffff_ffff_ffff,
        ;
        assert(0 <= t * p <= 0xffff_ffff_ffff_ffff * 0xffff_ffff_ffff_ffff) by (nonlinear_arith)
            requires
                0 <= t <= 0xffff_ffff_ffff_ffff,
                0 <= p <= 0xffff_ffff_ffff_ffff,
        ;
    }
    let lhs: u128 = diff as u128 * BPS_SCALE as u128;
    let rhs: u128 = tolerance as u128 * intent.target_price as u128;
    lhs > rhs
}

/// Decides whether an intent may be executed against a market snapshot.
pub fn evaluate(intent: &TradeIntent, snapshot: &MarketSnapshot) -> (d: TradeDecision)
    ensures
        d == decision_of(*intent, snapshot.price, snapshot.bids@),
{
    let price = snapshot.price;
    if exceeds_slippage(intent, price) {
        TradeDecision::Rejected(RejectReason::SlippageExceeded)
    } else if !has_liquidity(&snapshot.bids, intent.target_price, intent.amount) {
        TradeDecision::Rejected(RejectReason::InsufficientLiquidity)
    } else if price == 0 {
        TradeDecision::Rejected(RejectReason::MarketDataUnavailable)
    } else if intent.stop_loss.is_some() && price < intent.stop_loss.unwrap() {
        TradeDecision::Rejected(RejectReason::BelowStopLoss)
    } else if intent.take_profit.is_some() && price > intent.take_profit.unwrap() {
        TradeDecision::Rejected(RejectReason::AboveTakeProfit)
    } else {
        TradeDecision::Accepted
    }
}

/// A market price that strays from the target by more than the tolerance is
/// refused for slippage, whatever the ladder, stop-loss and take-profit.
pub proof fn lemma_slippage_rejects(intent: TradeIntent, price: u64, bids: Seq<Level>)
    requires
        abs_diff(price as nat, intent.target_price as nat) * BPS_SCALE
            > tolerance_of(intent) * intent.target_price,
    ensures
        decision_of(intent, price, bids) == TradeDecision::Rejected(RejectReason::SlippageExceeded),
{
}

/// Once the slippage gate passes, a ladder whose volume at or above the
/// target is short of the amount is refused for liquidity.
pub proof fn lemma_short_ladder_rejects(intent: TradeIntent, price: u64, bids: Seq<Level>)
    requires
        !slippage_exceeded(intent, price),
        eligible_volume(bids, intent.target_price) < intent.amount,
    ensures
        decision_of(intent, price, bids) == TradeDecision::Rejected(
            RejectReason::InsufficientLiquidity,
        ),
{
}

/// Evaluation is a function of the intent and the snapshot alone: any two
/// results that `evaluate` may return for them are the same decision.
pub proof fn lemma_evaluate_idempotent(
    intent: TradeIntent,
    snapshot: MarketSnapshot,
    first: TradeDecision,
    second: TradeDecision,
)
    requires
        call_ensures(evaluate, (&intent, &snapshot), first),
        call_ensures(evaluate, (&intent, &snapshot), second),
    ensures
        first == second,
{
}

} // verus!
