//! The watch state: the last known price per tracked symbol.
//!
//! A successful batch replaces the whole item set with freshly built
//! items, each carrying its fetched price and one shared capture time.
//! A failed batch broadcasts the failure's message into every item's
//! error field and leaves prices and timestamps untouched, so stale
//! values stay visible next to the error.

use vstd::prelude::*;

use crate::aggregate::{BatchResult, FetchedPrice};
use crate::clock::now_millis;
use crate::decimal::Decimal;
use crate::fetch::FetchError;

verus! {

/// One tracked symbol with its last known good data and last error.
///
/// `price` and `last_update` are set and cleared together by a
/// successful batch; `error` changes independently and never clears
/// them.
#[derive(Debug, Clone)]
pub struct WatchItem {
    pub symbol: String,
    pub price: Option<Decimal>,
    pub last_update: Option<i64>,
    pub error: Option<String>,
}

/// The items after a successful batch of `pairs`, captured at `now`:
/// one fresh item per pair, in pair order, with no error.
pub open spec fn batch_success_applied(
    items: Seq<WatchItem>,
    pairs: Seq<FetchedPrice>,
    now: i64,
) -> bool {
    &&& items.len() == pairs.len()
    &&& forall|k: int|
        0 <= k < items.len() ==> {
            &&& (#[trigger] items[k]).symbol@ == pairs[k].symbol@
            &&& items[k].price == Some(pairs[k].price)
            &&& items[k].last_update == Some(now)
            &&& items[k].error is None
        }
}

/// The items after a failed batch: every item keeps its symbol, price
/// and timestamp, and carries the failure's message as its error.
pub open spec fn batch_failure_applied(
    before: Seq<WatchItem>,
    items: Seq<WatchItem>,
    e: FetchError,
) -> bool {
    &&& items.len() == before.len()
    &&& forall|k: int|
        0 <= k < items.len() ==> {
            &&& (#[trigger] items[k]).symbol@ == before[k].symbol@
            &&& items[k].price == before[k].price
            &&& items[k].last_update == before[k].last_update
            &&& items[k].error matches Some(m) && m@ == e.message_spec()
        }
}

/// The ordered set of tracked items.
#[derive(Debug)]
pub struct WatchState {
    pub items: Vec<WatchItem>,
}

impl WatchState {
    /// An empty watch list; items arrive with the first batch.
    pub fn new() -> (s: WatchState)
        ensures
            s.items@.len() == 0,
    {
        WatchState { items: Vec::new() }
    }

    /// A watch list with one empty item per configured symbol.
    pub fn with_symbols(symbols: &Vec<String>) -> (s: WatchState)
        ensures
            s.items@.len() == symbols@.len(),
            forall|k: int|
                0 <= k < symbols@.len() ==> {
                    &&& (#[trigger] s.items@[k]).symbol@ == symbols@[k]@
                    &&& s.items@[k].price is None
                    &&& s.items@[k].last_update is None
                    &&& s.items@[k].error is None
                },
    {
        let mut items: Vec<WatchItem> = Vec::new();
        let mut i: usize = 0;
        while i < symbols.len()
            invariant
                0 <= i <= symbols@.len(),
                items@.len() == i,
                forall|k: int|
                    0 <= k < i ==> {
                        &&& (#[trigger] items@[k]).symbol@ == symbols@[k]@
                        &&& items@[k].price is None
                        &&& items@[k].last_update is None
                        &&& items@[k].error is None
                    },
            decreases symbols@.len() - i,
        {
            let sym = symbols[i].clone();
            items.push(WatchItem { symbol: sym, price: None, last_update: None, error: None });
            i = i + 1;
        }
        WatchState { items }
    }

    /// Apply one batch, with `now` as the capture time of its values.
    ///
    /// A successful batch replaces the whole item set; a failed batch
    /// writes its message into every item's error and changes nothing
    /// else.
    pub fn apply(&mut self, batch: BatchResult, now: i64)
        ensures
            batch matches BatchResult::Success(pairs) ==> batch_success_applied(
                final(self).items@,
                pairs@,
                now,
            ),
            batch matches BatchResult::Failure(e) ==> batch_failure_applied(
                old(self).items@,
                final(self).items@,
                e,
            ),
    {
        match batch {
            BatchResult::Success(pairs) => {
                let mut items: Vec<WatchItem> = Vec::new();
                let mut i: usize = 0;
                while i < pairs.len()
                    invariant
                        0 <= i <= pairs@.len(),
                        items@.len() == i,
                        forall|k: int|
                            0 <= k < i ==> {
                                &&& (#[trigger] items@[k]).symbol@ == pairs@[k].symbol@
                                &&& items@[k].price == Some(pairs@[k].price)
                                &&& items@[k].last_update == Some(now)
                                &&& items@[k].error is None
                            },
                    decreases pairs@.len() - i,
                {
                    let sym = pairs[i].symbol.clone();
                    let price = pairs[i].price;
                    items.push(
                        WatchItem {
                            symbol: sym,
                            price: Some(price),
                            last_update: Some(now),
                            error: None,
                        },
                    );
                    i = i + 1;
                }
                self.items = items;
            },
            BatchResult::Failure(e) => {
                let msg = e.message();
                let mut i: usize = 0;
                while i < self.items.len()
                    invariant
                        0 <= i <= self.items@.len(),
                        self.items@.len() == old(self).items@.len(),
                        msg@ == e.message_spec(),
                        forall|k: int|
                            0 <= k < i ==> {
                                &&& (#[trigger] self.items@[k]).symbol@ == old(
                                    self,
                                ).items@[k].symbol@
                                &&& self.items@[k].price == old(self).items@[k].price
                                &&& self.items@[k].last_update == old(self).items@[k].last_update
                                &&& self.items@[k].error matches Some(m) && m@ == e.message_spec()
                            },
                        forall|k: int|
                            i <= k < self.items@.len() ==> self.items@[k] == old(self).items@[k],
                    decreases self.items@.len() - i,
                {
                    let updated = WatchItem {
                        symbol: self.items[i].symbol.clone(),
                        price: self.items[i].price,
                        last_update: self.items[i].last_update,
                        error: Some(msg.clone()),
                    };
                    self.items.set(i, updated);
                    i = i + 1;
                }
            },
        }
    }

    /// Apply one batch, capturing the current wall-clock time; all
    /// items of a successful batch share one capture instant.
    pub fn apply_now(&mut self, batch: BatchResult)
        ensures
            batch matches BatchResult::Success(pairs) ==> exists|t: i64|
                batch_success_applied(final(self).items@, pairs@, t),
            batch matches BatchResult::Failure(e) ==> batch_failure_applied(
                old(self).items@,
                final(self).items@,
                e,
            ),
    {
        let now = now_millis();
        self.apply(batch, now);
    }
}

} // verus!
