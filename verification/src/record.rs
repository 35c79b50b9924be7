//! The owned event record: a self-sufficient snapshot of one log event that
//! may be handed to another thread, together with the shared list of
//! contextual fields a logger attaches to every event it emits.

use std::sync::Arc;

use vstd::prelude::*;

use crate::level::Level;
use crate::value::{kvs_model, KVModel, OwnedKV};

verus! {

/// The contextual key/value fields accumulated by a logger, shared by
/// reference across many records.
///
/// The list is an immutable snapshot behind a reference-counted handle, so a
/// record captures it cheaply, without deep-copying, and many records may
/// hold the same list at once.  Its view is the ordered sequence of entry
/// models.
pub struct ContextFields {
    entries: Arc<Vec<OwnedKV>>,
}

impl View for ContextFields {
    type V = Seq<KVModel>;

    closed spec fn view(&self) -> Seq<KVModel> {
        kvs_model(self.entries@)
    }
}

/// Relies on `std::sync::Arc::clone`: the returned handle refers to the same
/// shared allocation, so it carries the same list.
#[verifier::external_body]
fn clone_context_handle(entries: &Arc<Vec<OwnedKV>>) -> (r: Arc<Vec<OwnedKV>>)
    ensures
        r == *entries,
{
    Arc::clone(entries)
}

impl ContextFields {
    /// Takes an immutable snapshot of the given entries.
    pub fn new(entries: Vec<OwnedKV>) -> (c: Self)
        ensures
            c@ == kvs_model(entries@),
    {
        ContextFields { entries: Arc::new(entries) }
    }

    /// Hands out another handle to the same shared list.
    pub fn share(&self) -> (c: Self)
        ensures
            c@ == self@,
    {
        ContextFields { entries: clone_context_handle(&self.entries) }
    }

    /// The shared entries, in order.
    pub fn entries(&self) -> (r: &Vec<OwnedKV>)
        ensures
            kvs_model(r@) == self@,
    {
        &self.entries
    }
}

/// An owned snapshot of everything one log call produced: the unit of
/// cross-thread transport.
///
/// Once constructed, a record borrows nothing from the log call that
/// produced it: the message and target are owned text, the source location
/// is copied, the per-call fields are owned entries, and the contextual
/// fields are held through a shared handle.
pub struct AsyncRecord {
    /// The message, already formatted: format arguments do not outlive the
    /// log call, so they are resolved before the record is built.
    pub msg: String,
    /// The severity level.
    pub level: Level,
    /// The source file.
    pub file: String,
    /// The source line.
    pub line: u32,
    /// The source column.
    pub column: u32,
    /// The enclosing function.
    pub function: String,
    /// The enclosing module.
    pub module: String,
    /// The target/category of the event.
    pub target: String,
    /// The logger's contextual fields, shared without copying.
    pub logger_values: ContextFields,
    /// The fields attached directly to this event, in emission order.
    pub record_values: Vec<OwnedKV>,
}

/// The mathematical model of an [`AsyncRecord`].
pub ghost struct RecordModel {
    /// The message.
    pub msg: Seq<char>,
    /// The severity level.
    pub level: Level,
    /// The source file.
    pub file: Seq<char>,
    /// The source line.
    pub line: u32,
    /// The source column.
    pub column: u32,
    /// The enclosing function.
    pub function: Seq<char>,
    /// The enclosing module.
    pub module: Seq<char>,
    /// The target/category of the event.
    pub target: Seq<char>,
    /// The contextual fields.
    pub logger_values: Seq<KVModel>,
    /// The per-call fields, in emission order.
    pub record_values: Seq<KVModel>,
}

impl View for AsyncRecord {
    type V = RecordModel;

    open spec fn view(&self) -> RecordModel {
        RecordModel {
            msg: self.msg@,
            level: self.level,
            file: self.file@,
            line: self.line,
            column: self.column,
            function: self.function@,
            module: self.module@,
            target: self.target@,
            logger_values: self.logger_values@,
            record_values: kvs_model(self.record_values@),
        }
    }
}

impl AsyncRecord {
    /// Assembles an owned record from the parts of one log call: the
    /// rendered message, the level, the source location, the owned target
    /// text, the captured per-call fields, and a shared handle to the
    /// logger's contextual fields.
    pub fn new(
        msg: String,
        level: Level,
        file: String,
        line: u32,
        column: u32,
        function: String,
        module: String,
        target: String,
        logger_values: &ContextFields,
        record_values: Vec<OwnedKV>,
    ) -> (r: AsyncRecord)
        ensures
            r@ == (RecordModel {
                msg: msg@,
                level: level,
                file: file@,
                line: line,
                column: column,
                function: function@,
                module: module@,
                target: target@,
                logger_values: logger_values@,
                record_values: kvs_model(record_values@),
            }),
    {
        AsyncRecord {
            msg,
            level,
            file,
            line,
            column,
            function,
            module,
            target,
            logger_values: logger_values.share(),
            record_values,
        }
    }
}

/// The model of a sequence of records.
pub open spec fn records_model(rs: Seq<AsyncRecord>) -> Seq<RecordModel> {
    rs.map_values(|r: AsyncRecord| r@)
}

/// Appending a record appends its model.
pub proof fn lemma_records_model_push(rs: Seq<AsyncRecord>, r: AsyncRecord)
    ensures
        records_model(rs.push(r)) == records_model(rs).push(r@),
{
    assert(records_model(rs.push(r)) =~= records_model(rs).push(r@));
}

/// A non-empty sequence of records models as its first record's model
/// followed by the model of the rest.
pub proof fn lemma_records_model_first(rs: Seq<AsyncRecord>)
    requires
        rs.len() > 0,
    ensures
        records_model(rs) == seq![rs[0]@] + records_model(rs.drop_first()),
{
    assert(records_model(rs) =~= seq![rs[0]@] + records_model(rs.drop_first()));
}

} // verus!
