//! An asynchronous dispatch core for a structured logging pipeline.
//!
//! A log call made on one thread must not block on the I/O performed by the
//! final consumer of the event (the *sink*).  This crate verifies the
//! mechanism that makes that possible:
//!
//! * an ephemeral, stack-scoped log event is copied into an owned,
//!   thread-transportable snapshot ([`record::AsyncRecord`]), its structured
//!   fields captured one by one into a closed set of owned value kinds
//!   ([`serializer::ToSendSerializer`]);
//! * the snapshot travels through an ordered dispatch queue to a single
//!   consumer, which replays each record into the wrapped sink in submission
//!   order ([`dispatch`]);
//! * teardown sends a shutdown signal and does not complete until every
//!   record enqueued before it has been replayed.
//!
//! The thread, channel and thread-local plumbing that drives this core in a
//! real process lives outside the verified library; everything the plumbing
//! decides or computes — what a capture step stores, what a record carries,
//! what the consumer does with each message, when an enqueue must fail, and
//! how the per-thread handle cache behaves — is specified and proved here.

pub mod dispatch;
pub mod handle;
pub mod level;
pub mod order;
pub mod record;
pub mod serializer;
pub mod value;
