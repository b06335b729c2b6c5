//! The order book state for one tracked pair.
//!
//! A successful fetch replaces the book wholesale with the parseable
//! depth levels of the raw feed, in feed order; the feed's own ordering
//! (bids descending, asks ascending) is taken as authoritative and
//! never re-sorted here. A level whose price or size is not a decimal
//! literal is dropped silently, so one malformed level never fails the
//! refresh. A failed fetch only records the error and keeps the stale
//! book visible.

use vstd::prelude::*;

use crate::decimal::{parseable, spec_decimal, Decimal};
use crate::fetch::FetchError;

verus! {

/// One depth level: a price and the size offered at it.
#[derive(Clone, Copy, Debug, PartialEq, Eq, Structural)]
pub struct Level {
    pub price: Decimal,
    pub size: Decimal,
}

/// One raw depth level as the feed sends it: two decimal literals.
pub open spec fn level_parseable(raw: (Seq<char>, Seq<char>)) -> bool {
    parseable(raw.0) && parseable(raw.1)
}

/// The level a parseable raw entry denotes.
pub open spec fn level_of(raw: (Seq<char>, Seq<char>)) -> Level {
    Level { price: spec_decimal(raw.0), size: spec_decimal(raw.1) }
}

/// The raw entries as character sequences.
pub open spec fn raw_views(raws: Seq<(String, String)>) -> Seq<(Seq<char>, Seq<char>)> {
    raws.map_values(|p: (String, String)| (p.0@, p.1@))
}

/// The parseable entries of one side, in input order, with
/// unparseable entries omitted.
pub open spec fn parsed_levels(raws: Seq<(Seq<char>, Seq<char>)>) -> Seq<Level>
    decreases raws.len(),
{
    if raws.len() == 0 {
        Seq::empty()
    } else if level_parseable(raws.last()) {
        parsed_levels(raws.drop_last()).push(level_of(raws.last()))
    } else {
        parsed_levels(raws.drop_last())
    }
}

/// Parse one side of a raw book leniently: keep exactly the parseable
/// entries, in input order.
#[verifier::loop_isolation(false)]
pub fn parse_levels(raws: &Vec<(String, String)>) -> (r: Vec<Level>)
    ensures
        r@ == parsed_levels(raw_views(raws@)),
{
    let mut out: Vec<Level> = Vec::new();
    let mut i: usize = 0;
    while i < raws.len()
        invariant
            0 <= i <= raws@.len(),
            out@ == parsed_levels(raw_views(raws@.subrange(0, i as int))),
        decreases raws@.len() - i,
    {
        let ghost pre = raws@.subrange(0, i as int);
        let price = Decimal::parse(raws[i].0.as_str());
        let size = Decimal::parse(raws[i].1.as_str());
        proof {
            assert(raws@.subrange(0, i + 1) =~= pre.push(raws@[i as int]));
            assert(raw_views(pre.push(raws@[i as int])) =~= raw_views(pre).push(
                (raws@[i as int].0@, raws@[i as int].1@),
            ));
            let q = raw_views(pre).push((raws@[i as int].0@, raws@[i as int].1@));
            assert(q.drop_last() =~= raw_views(pre));
        }
        match (price, size) {
            (Some(p), Some(s)) => {
                out.push(Level { price: p, size: s });
            },
            _ => {},
        }
        i = i + 1;
    }
    proof {
        assert(raws@.subrange(0, raws@.len() as int) =~= raws@);
    }
    out
}

/// The book after a successful fetch of `raw`: the pair replaced, both
/// sides holding exactly the parseable raw entries, and no error.
pub open spec fn book_success_applied(
    book: OrderBook,
    pair: Seq<char>,
    bids: Seq<(String, String)>,
    asks: Seq<(String, String)>,
) -> bool {
    &&& book.pair@ == pair
    &&& book.bids@ == parsed_levels(raw_views(bids))
    &&& book.asks@ == parsed_levels(raw_views(asks))
    &&& book.last_error is None
}

/// The book after a failed fetch: pair and both sides bit-identical to
/// before; only the error text changes.
pub open spec fn book_failure_applied(before: OrderBook, book: OrderBook, e: FetchError) -> bool {
    &&& book.pair@ == before.pair@
    &&& book.bids@ == before.bids@
    &&& book.asks@ == before.asks@
    &&& book.last_error matches Some(m) && m@ == e.message_spec()
}

/// One raw order-book fetch as the feed delivers it: string-encoded
/// depth levels for both sides.
#[derive(Debug, Clone)]
pub struct RawBook {
    pub pair: String,
    pub bids: Vec<(String, String)>,
    pub asks: Vec<(String, String)>,
}

/// The current order book of one tracked pair.
#[derive(Debug)]
pub struct OrderBook {
    pub pair: String,
    /// Descending by price, by convention of the source feed.
    pub bids: Vec<Level>,
    /// Ascending by price, by convention of the source feed.
    pub asks: Vec<Level>,
    pub last_error: Option<String>,
}

impl OrderBook {
    /// An empty book for a pair; levels arrive with the first fetch.
    pub fn new(pair: String) -> (b: OrderBook)
        ensures
            b.pair@ == pair@,
            b.bids@.len() == 0,
            b.asks@.len() == 0,
            b.last_error is None,
    {
        OrderBook { pair, bids: Vec::new(), asks: Vec::new(), last_error: None }
    }

    /// Apply one fetch result: replace the book wholesale on success,
    /// record only the error on failure.
    pub fn apply(&mut self, result: Result<RawBook, FetchError>)
        ensures
            result matches Ok(raw) ==> book_success_applied(
                *final(self),
                raw.pair@,
                raw.bids@,
                raw.asks@,
            ),
            result matches Err(e) ==> book_failure_applied(*old(self), *final(self), e),
    {
        match result {
            Ok(raw) => {
                let bids = parse_levels(&raw.bids);
                let asks = parse_levels(&raw.asks);
                self.pair = raw.pair;
                self.bids = bids;
                self.asks = asks;
                self.last_error = None;
            },
            Err(e) => {
                self.last_error = Some(e.message());
            },
        }
    }
}

} // verus!
