use crate::error::ThreadError;
use crate::thread::{join_outcome, STATUS_OK};
use vstd::prelude::*;

verus! {

/// What each join returns when the threads that produced `results` are joined without
/// failure in the order `order`: entry `k` belongs to the join of thread `order[k]`.
pub open spec fn joined_in_order<A>(results: Seq<Box<A>>, order: Seq<int>) -> Seq<Result<A, ThreadError>> {
    Seq::new(order.len(), |k: int| join_outcome(STATUS_OK, Some(results[order[k]])))
}

/// `order` joins each of `count` threads: it has `count` entries, each names a thread,
/// and every thread is named.
pub open spec fn is_join_order(order: Seq<int>, count: nat) -> bool {
    &&& order.len() == count
    &&& forall|k: int| 0 <= k < order.len() ==> 0 <= #[trigger] order[k] < count
    &&& forall|i: int| 0 <= i < count ==> #[trigger] order.contains(i)
}

/// Joining in the order `order` hands out the result of thread `i`: one of the joins is
/// that of thread `i`, and it returns what that thread computed.
pub open spec fn hands_out<A>(results: Seq<Box<A>>, order: Seq<int>, i: int) -> bool {
    exists|k: int|
        0 <= k < order.len() && #[trigger] order[k] == i && joined_in_order(results, order)[k]
            == Ok::<A, ThreadError>(*results[i])
}

/// A computation that can only return `v` gives `v` to whoever joins its thread: the
/// box that the shim returns for it, recovered by a join that succeeded, holds `v`.
pub proof fn law_join_returns_what_was_computed<A, F: FnOnce() -> A>(
    start_routine: Box<F>,
    v: A,
    produced: Box<A>,
)
    requires
        forall|x: A| start_routine.ensures((), x) ==> x == v,
        start_routine.ensures((), *produced),
    ensures
        join_outcome(STATUS_OK, Some(produced)) == Ok::<A, ThreadError>(v),
{
}

/// Two or more threads joined in any order give each joiner the result of its own
/// thread, and every result is handed out.
pub proof fn law_join_order_is_immaterial<A>(results: Seq<Box<A>>, order: Seq<int>)
    requires
        results.len() >= 2,
        is_join_order(order, results.len()),
    ensures
        joined_in_order(results, order).len() == results.len(),
        forall|k: int|
            0 <= k < order.len() ==> #[trigger] joined_in_order(results, order)[k]
                == Ok::<A, ThreadError>(*results[order[k]]),
        forall|i: int| 0 <= i < results.len() ==> #[trigger] hands_out(results, order, i),
{
    assert forall|i: int| 0 <= i < results.len() implies #[trigger] hands_out(results, order, i) by {
        assert(order.contains(i));
        let k = choose|k: int| 0 <= k < order.len() && order[k] == i;
        assert(joined_in_order(results, order)[k] == Ok::<A, ThreadError>(*results[i]));
    }
}

} // verus!
