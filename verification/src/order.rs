//! Order preservation across producer threads.
//!
//! The dispatch queue serializes the producers: one complete enqueue always
//! precedes or follows another, so the delivery order of the sink is the
//! sequence of enqueues, each tagged here with the identity of the thread
//! that made it.  These lemmas state the linearization guarantee: an
//! enqueue appends to its own thread's subsequence of the delivery order
//! and leaves every other thread's subsequence unchanged — so each thread's
//! records reach the sink in that thread's own call order, whatever the
//! global interleaving.

use vstd::prelude::*;

use crate::record::RecordModel;

verus! {

/// The records of the delivery order that thread `t` enqueued, in delivery
/// order.
pub open spec fn thread_view(history: Seq<(u64, RecordModel)>, t: u64) -> Seq<RecordModel> {
    history.filter(|e: (u64, RecordModel)| e.0 == t).map_values(|e: (u64, RecordModel)| e.1)
}

/// A complete enqueue by thread `e.0` appends its record to that thread's
/// own subsequence of the delivery order.
pub proof fn lemma_enqueue_extends_own_thread(
    history: Seq<(u64, RecordModel)>,
    e: (u64, RecordModel),
)
    ensures
        thread_view(history.push(e), e.0) == thread_view(history, e.0).push(e.1),
{
    reveal(Seq::filter);
    let pred = |x: (u64, RecordModel)| x.0 == e.0;
    assert(history.push(e).drop_last() =~= history);
    assert(history.push(e).filter(pred) == history.filter(pred).push(e));
    assert(thread_view(history.push(e), e.0) =~= thread_view(history, e.0).push(e.1));
}

/// A complete enqueue by one thread leaves every other thread's subsequence
/// of the delivery order unchanged.
pub proof fn lemma_enqueue_preserves_other_threads(
    history: Seq<(u64, RecordModel)>,
    e: (u64, RecordModel),
    t: u64,
)
    requires
        e.0 != t,
    ensures
        thread_view(history.push(e), t) == thread_view(history, t),
{
    reveal(Seq::filter);
    let pred = |x: (u64, RecordModel)| x.0 == t;
    assert(history.push(e).drop_last() =~= history);
    assert(history.push(e).filter(pred) == history.filter(pred));
}

} // verus!
