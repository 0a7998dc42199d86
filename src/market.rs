use vstd::prelude::*;
use crate::decimal::{fixed_u64, parse_fixed};
use crate::types::{Level, MarketSnapshot};

verus! {

/// A bid level read from its price and volume texts.
pub open spec fn level_of(text: (String, String)) -> Option<Level> {
    match (fixed_u64(text.0@), fixed_u64(text.1@)) {
        (Some(price), Some(volume)) => Some(Level { price, volume }),
        _ => None,
    }
}

pub open spec fn ladder_is_readable(bids: Seq<(String, String)>) -> bool {
    forall|i: int| 0 <= i < bids.len() ==> (#[trigger] level_of(bids[i])) is Some
}

/// Builds a snapshot from the decimal texts that the exchange returns: the
/// price and the bid ladder's `(price, volume)` pairs, best bid first.
/// `None` when any of them is not a decimal text.
pub fn parse_snapshot(price: &str, bids: &Vec<(String, String)>) -> (r: Option<MarketSnapshot>)
    ensures
        r is Some <==> (fixed_u64(price@) is Some && ladder_is_readable(bids@)),
        r is Some ==> {
            let s = r->0;
            &&& Some(s.price) == fixed_u64(price@)
            &&& s.bids@.len() == bids@.len()
            &&& forall|i: int| 0 <= i < bids@.len() ==> Some(s.bids@[i]) == level_of(bids@[i])
        },
{
    let p = match parse_fixed(price) {
        Some(p) => p,
        None => return None,
    };
    let mut levels: Vec<Level> = Vec::new();
    let mut i: usize = 0;
    while i < bids.len()
        invariant
            i <= bids.len(),
            levels@.len() == i,
            forall|j: int| 0 <= j < i ==> Some(levels@[j]) == level_of(bids@[j]),
        decreases bids.len() - i,
    {
        let lp = parse_fixed(bids[i].0.as_str());
        let lv = parse_fixed(bids[i].1.as_str());
        match (lp, lv) {
            (Some(a), Some(b)) => levels.push(Level { price: a, volume: b }),
            _ => {
                assert(level_of(bids@[i as int]) is None);
                return None;
            },
        }
        i += 1;
    }
    Some(MarketSnapshot { price: p, bids: levels })
}

} // verus!
