//! The dispatch mechanism: an ordered queue of messages from producers to a
//! single consumer, the consumer's replay loop, and the adapter lifecycle
//! around them.
//!
//! [`AsyncCore`] is the adapter: producers enqueue owned records through it,
//! the consumer side replays them into the wrapped sink in submission order,
//! and [`AsyncCore::shutdown`] models teardown — it does not return until
//! every record enqueued before it has been replayed.  [`replay`] is the
//! consumer's own loop over dispatch messages, which stops at the shutdown
//! signal.

use vstd::prelude::*;

use crate::level::Level;
use crate::record::{
    lemma_records_model_first, lemma_records_model_push, records_model, AsyncRecord,
    ContextFields, RecordModel,
};
use crate::value::{kvs_model, OwnedKV};

verus! {

/// The one failure mode of the producer side: the enqueue end found the
/// consumer side already torn down, so the record cannot be delivered.
#[derive(Clone, Copy, Debug, PartialEq, Eq, Structural)]
pub enum DispatchError {
    /// The receiving end of the dispatch queue is gone.
    ChannelClosed,
}

/// One message of the dispatch queue: an owned record to replay, or the
/// shutdown signal, which carries nothing.
pub enum AsyncMsg {
    /// Replay this record into the wrapped sink.
    Record(AsyncRecord),
    /// Stop the consumer.
    Finish,
}

/// The records a message sequence asks the consumer to replay: every record
/// before the first shutdown signal, in order.
pub open spec fn replayed(msgs: Seq<AsyncMsg>) -> Seq<RecordModel>
    decreases msgs.len(),
{
    if msgs.len() == 0 {
        Seq::<RecordModel>::empty()
    } else {
        match msgs[0] {
            AsyncMsg::Record(r) => seq![r@] + replayed(msgs.drop_first()),
            AsyncMsg::Finish => Seq::<RecordModel>::empty(),
        }
    }
}

/// Whether a message sequence reaches a shutdown signal.
pub open spec fn reaches_finish(msgs: Seq<AsyncMsg>) -> bool
    decreases msgs.len(),
{
    if msgs.len() == 0 {
        false
    } else {
        match msgs[0] {
            AsyncMsg::Record(r) => reaches_finish(msgs.drop_first()),
            AsyncMsg::Finish => true,
        }
    }
}

/// The wrapped sink: the final, committed consumer of log events.
///
/// The sink is contractually infallible — its entry point returns nothing —
/// and it is invoked exclusively from the consumer side, one record at a
/// time.  Its `observed` view is the sequence of records it has consumed,
/// in the order they reached it; logging appends exactly the given record.
pub trait Sink {
    /// The records this sink has consumed, in arrival order.
    spec fn observed(&self) -> Seq<RecordModel>;

    /// Consumes one record.
    fn log(&mut self, rec: AsyncRecord)
        ensures
            final(self).observed() == old(self).observed().push(rec@),
    ;
}

/// A sink that keeps every record it consumes, in arrival order.
///
/// This is the in-memory test sink: after a run, the records it holds are
/// exactly the delivery order of the adapter.
pub struct MemorySink {
    /// The consumed records, in arrival order.
    pub records: Vec<AsyncRecord>,
}

impl MemorySink {
    /// Creates an empty sink.
    pub fn new() -> (s: Self)
        ensures
            s.observed() == Seq::<RecordModel>::empty(),
    {
        let s = MemorySink { records: Vec::new() };
        proof {
            assert(s.observed() =~= Seq::<RecordModel>::empty());
        }
        s
    }
}

impl Sink for MemorySink {
    open spec fn observed(&self) -> Seq<RecordModel> {
        records_model(self.records@)
    }

    fn log(&mut self, rec: AsyncRecord) {
        proof {
            lemma_records_model_push(self.records@, rec);
        }
        self.records.push(rec);
    }
}

/// The consumer's loop: takes the pending messages in order, replays each
/// record into the wrapped sink, and stops at the first shutdown signal.
///
/// Returns whether the shutdown signal was reached.  Whatever the mix of
/// records and signals, the sink observes exactly the records before the
/// first signal, in submission order — none dropped, none duplicated.
#[verifier::loop_isolation(false)]
pub fn replay<S: Sink>(sink: &mut S, msgs: Vec<AsyncMsg>) -> (stopped: bool)
    ensures
        final(sink).observed() == old(sink).observed() + replayed(msgs@),
        stopped == reaches_finish(msgs@),
{
    let mut msgs = msgs;
    let ghost all = msgs@;
    proof {
        assert(old(sink).observed() + replayed(all) =~= sink.observed() + replayed(msgs@));
    }
    while msgs.len() > 0
        invariant
            sink.observed() + replayed(msgs@) == old(sink).observed() + replayed(all),
            reaches_finish(msgs@) == reaches_finish(all),
        decreases msgs.len(),
    {
        let ghost before = msgs@;
        let m = msgs.remove(0);
        proof {
            assert(msgs@ =~= before.drop_first());
        }
        match m {
            AsyncMsg::Record(r) => {
                let ghost seen = sink.observed();
                sink.log(r);
                proof {
                    assert(replayed(before) == seq![r@] + replayed(msgs@));
                    assert(seen.push(r@) + replayed(msgs@) =~= seen + replayed(before));
                }
            },
            AsyncMsg::Finish => {
                proof {
                    assert(replayed(before) =~= Seq::<RecordModel>::empty());
                    assert(sink.observed() + replayed(before) =~= sink.observed());
                }
                return true;
            },
        }
    }
    proof {
        assert(sink.observed() + replayed(msgs@) =~= sink.observed());
    }
    false
}

/// The adapter: owns the dispatch queue between the producers and the
/// consumer side, the wrapped sink the consumer replays into, and the
/// running flag of the consumer.
///
/// `pending` is the queue contents in submission order; `delivered` is what
/// the sink has observed.  While the adapter is running, an enqueue always
/// succeeds and appends to `pending`; once it has been shut down, an
/// enqueue fails and changes nothing.
pub struct AsyncCore<S: Sink> {
    queue: Vec<AsyncRecord>,
    sink: S,
    running: bool,
}

impl<S: Sink> AsyncCore<S> {
    /// The records enqueued but not yet replayed, in submission order.
    pub closed spec fn pending(&self) -> Seq<RecordModel> {
        records_model(self.queue@)
    }

    /// The records the wrapped sink has observed, in delivery order.
    pub closed spec fn delivered(&self) -> Seq<RecordModel> {
        self.sink.observed()
    }

    /// Whether the consumer side is still accepting records.
    pub closed spec fn is_running(&self) -> bool {
        self.running
    }

    /// Creates the adapter around the wrapped sink, with an empty queue and
    /// the consumer side running.  Returns immediately: nothing is replayed
    /// yet, and nothing waits for the consumer.
    pub fn new(sink: S) -> (c: Self)
        ensures
            c.pending() == Seq::<RecordModel>::empty(),
            c.delivered() == sink.observed(),
            c.is_running(),
    {
        let c = AsyncCore { queue: Vec::new(), sink, running: true };
        proof {
            assert(c.pending() =~= Seq::<RecordModel>::empty());
        }
        c
    }

    /// Enqueues one owned record for the consumer to replay.
    ///
    /// Succeeds exactly when the consumer side has not been torn down;
    /// nothing is replayed yet, and the producer does not wait.  After
    /// teardown, the record is refused and nothing changes.
    pub fn send(&mut self, r: AsyncRecord) -> (res: Result<(), DispatchError>)
        ensures
            old(self).is_running() ==> res is Ok && final(self).pending() == old(
                self,
            ).pending().push(r@),
            !old(self).is_running() ==> res == Result::<(), DispatchError>::Err(
                DispatchError::ChannelClosed,
            ) && *final(self) == *old(self),
            final(self).delivered() == old(self).delivered(),
            final(self).is_running() == old(self).is_running(),
    {
        if self.running {
            proof {
                lemma_records_model_push(self.queue@, r);
            }
            self.queue.push(r);
            Ok(())
        } else {
            Err(DispatchError::ChannelClosed)
        }
    }

    /// The logging operation: assembles the owned record for one log call —
    /// the rendered message, the level, the source location, the owned
    /// target, the captured per-call fields and a shared handle to the
    /// logger's contextual fields — and enqueues it.
    ///
    /// Returns success once the record is enqueued; it does not wait for the
    /// consumer to replay it.  Fails exactly when the consumer side has
    /// already been torn down, which leaves the adapter unchanged.
    pub fn log(
        &mut self,
        msg: String,
        level: Level,
        file: String,
        line: u32,
        column: u32,
        function: String,
        module: String,
        target: String,
        logger_values: &ContextFields,
        record_values: Vec<OwnedKV>,
    ) -> (res: Result<(), DispatchError>)
        ensures
            old(self).is_running() ==> res is Ok && final(self).pending() == old(
                self,
            ).pending().push(
                (RecordModel {
                    msg: msg@,
                    level: level,
                    file: file@,
                    line: line,
                    column: column,
                    function: function@,
                    module: module@,
                    target: target@,
                    logger_values: logger_values@,
                    record_values: kvs_model(record_values@),
                }),
            ),
            !old(self).is_running() ==> res == Result::<(), DispatchError>::Err(
                DispatchError::ChannelClosed,
            ) && *final(self) == *old(self),
            final(self).delivered() == old(self).delivered(),
            final(self).is_running() == old(self).is_running(),
    {
        let rec = AsyncRecord::new(
            msg,
            level,
            file,
            line,
            column,
            function,
            module,
            target,
            logger_values,
            record_values,
        );
        self.send(rec)
    }

    /// The consumer's step: replays the oldest pending record, if any, into
    /// the wrapped sink.  Returns whether a record was replayed.
    pub fn process_next(&mut self) -> (processed: bool)
        ensures
            processed == (old(self).pending().len() > 0),
            processed ==> final(self).delivered() == old(self).delivered().push(
                old(self).pending()[0],
            ) && final(self).pending() == old(self).pending().drop_first(),
            !processed ==> *final(self) == *old(self),
            final(self).is_running() == old(self).is_running(),
    {
        if self.queue.len() > 0 {
            proof {
                lemma_records_model_first(self.queue@);
            }
            let ghost before = self.queue@;
            let r = self.queue.remove(0);
            proof {
                assert(self.queue@ =~= before.drop_first());
                assert(records_model(self.queue@) =~= records_model(before).drop_first());
            }
            self.sink.log(r);
            true
        } else {
            false
        }
    }

    /// Teardown: blocks until the consumer has drained the queue, then
    /// stops it.
    ///
    /// Does not return until every record enqueued before it was called has
    /// been replayed into the wrapped sink — each exactly once, none
    /// dropped, none duplicated, in submission order after everything the
    /// sink had observed before.
    pub fn shutdown(&mut self)
        ensures
            final(self).delivered() == old(self).delivered() + old(self).pending(),
            final(self).pending() == Seq::<RecordModel>::empty(),
            !final(self).is_running(),
    {
        let ghost d0 = self.delivered();
        let ghost p0 = self.pending();
        proof {
            assert(d0 + p0 =~= self.delivered() + self.pending());
        }
        while self.queue.len() > 0
            invariant
                self.delivered() + self.pending() == d0 + p0,
            decreases self.queue.len(),
        {
            let ghost before = self.queue@;
            let ghost seen = self.sink.observed();
            proof {
                lemma_records_model_first(before);
            }
            let r = self.queue.remove(0);
            proof {
                assert(self.queue@ =~= before.drop_first());
                assert(records_model(self.queue@) =~= records_model(before).drop_first());
            }
            self.sink.log(r);
            proof {
                assert(seen.push(before[0]@) + records_model(before).drop_first() =~= seen
                    + records_model(before));
            }
        }
        self.running = false;
        proof {
            assert(self.pending() =~= Seq::<RecordModel>::empty());
            assert(self.delivered() + self.pending() =~= self.delivered());
        }
    }

    /// The wrapped sink, for inspection after teardown.
    pub fn sink(&self) -> (s: &S)
        ensures
            s.observed() == self.delivered(),
    {
        &self.sink
    }

    /// How many records are enqueued but not yet replayed.
    pub fn pending_len(&self) -> (n: usize)
        ensures
            n == self.pending().len(),
    {
        self.queue.len()
    }
}

} // verus!
