//! The all-or-nothing aggregation policy for a batch of price fetches.
//!
//! One fetch is issued per tracked symbol; the caller joins the
//! already-completed outcomes here, in target order. If every outcome
//! succeeded, the batch is the ordered sequence of (symbol, price)
//! pairs; if any failed, the whole batch is a failure carrying the
//! first error, which the watch state then broadcasts to every item.

use vstd::prelude::*;

use crate::decimal::Decimal;
use crate::fetch::FetchError;

verus! {

/// One successfully fetched price, paired with its symbol.
#[derive(Debug, Clone)]
pub struct FetchedPrice {
    pub symbol: String,
    pub price: Decimal,
}

/// The result of one aggregation cycle over all tracked symbols.
#[derive(Debug, Clone)]
pub enum BatchResult {
    /// Every fetch succeeded; pairs are in target order.
    Success(Vec<FetchedPrice>),
    /// At least one fetch failed; carries one representative error.
    Failure(FetchError),
}

/// Join per-target fetch outcomes under the all-or-nothing policy.
///
/// Succeeds exactly when every outcome succeeded, and then pairs each
/// target with its price, in target order. Otherwise the batch fails
/// with the error of the first failed target.
#[verifier::loop_isolation(false)]
pub fn all_or_nothing(targets: &Vec<String>, outcomes: Vec<Result<Decimal, FetchError>>) -> (r:
    BatchResult)
    requires
        targets@.len() == outcomes@.len(),
    ensures
        r is Success <==> (forall|k: int| 0 <= k < outcomes@.len() ==> outcomes@[k] is Ok),
        r matches BatchResult::Success(pairs) ==> {
            &&& pairs@.len() == targets@.len()
            &&& forall|k: int|
                0 <= k < pairs@.len() ==> {
                    &&& (#[trigger] pairs@[k]).symbol@ == targets@[k]@
                    &&& outcomes@[k] matches Ok(p) && pairs@[k].price == p
                }
        },
        r matches BatchResult::Failure(e) ==> exists|k: int|
            {
                &&& 0 <= k < outcomes@.len()
                &&& (#[trigger] outcomes@[k]) matches Err(e2) && e == e2
                &&& forall|j: int| 0 <= j < k ==> outcomes@[j] is Ok
            },
{
    let ghost orig = outcomes@;
    let mut outs = outcomes;
    let mut pairs: Vec<FetchedPrice> = Vec::new();
    let mut i: usize = 0;
    while i < targets.len()
        invariant
            outs@ == orig,
            targets@.len() == orig.len(),
            0 <= i <= targets@.len(),
            pairs@.len() == i,
            forall|j: int| 0 <= j < i ==> orig[j] is Ok,
            forall|j: int|
                0 <= j < i ==> {
                    &&& (#[trigger] pairs@[j]).symbol@ == targets@[j]@
                    &&& orig[j] matches Ok(p) && pairs@[j].price == p
                },
        decreases targets@.len() - i,
    {
        let is_err = match &outs[i] {
            Ok(p) => {
                let sym = targets[i].clone();
                pairs.push(FetchedPrice { symbol: sym, price: *p });
                false
            },
            Err(_) => true,
        };
        if is_err {
            let taken = outs.remove(i);
            match taken {
                Err(e) => {
                    proof {
                        let ki = i as int;
                        assert({
                            &&& 0 <= ki < orig.len()
                            &&& orig[ki] matches Err(e2) && e == e2
                            &&& forall|j: int| 0 <= j < ki ==> orig[j] is Ok
                        });
                        assert(exists|k: int|
                            {
                                &&& 0 <= k < orig.len()
                                &&& (#[trigger] orig[k]) matches Err(e2) && e == e2
                                &&& forall|j: int| 0 <= j < k ==> orig[j] is Ok
                            });
                    }
                    return BatchResult::Failure(e);
                },
                Ok(_) => {
                    return unreached();
                },
            }
        }
        i = i + 1;
    }
    BatchResult::Success(pairs)
}

} // verus!
