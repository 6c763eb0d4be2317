//! The shape of one unit of ingestion: a checkpoint of ordered transactions,
//! each carrying the raw events it emitted.

use vstd::prelude::*;

verus! {

/// Why a checkpoint had to be abandoned. Each of these is fatal for the
/// whole checkpoint: nothing extracted from it may be applied downstream.
#[derive(Debug, Clone, Copy, PartialEq, Eq, Structural)]
pub enum ProcessError {
    /// The checkpoint timestamp does not fit a signed 64-bit millisecond
    /// count.
    TimestampOutOfRange,
    /// A type tag carried the configured package prefix but none of the six
    /// recognized suffixes.
    UnrecognizedEventType,
    /// A recognized event's payload failed its schema.
    MalformedPayload,
}

/// A raw emitted event: a fully qualified type tag and an opaque payload.
#[derive(Debug, Clone)]
pub struct RawEvent {
    pub type_tag: String,
    pub contents: Vec<u8>,
}

/// Mathematical form of a raw event.
pub struct RawEventModel {
    pub type_tag: Seq<char>,
    pub contents: Seq<u8>,
}

impl View for RawEvent {
    type V = RawEventModel;

    open spec fn view(&self) -> RawEventModel {
        RawEventModel { type_tag: self.type_tag@, contents: self.contents@ }
    }
}

impl DeepView for RawEvent {
    type V = RawEventModel;

    open spec fn deep_view(&self) -> RawEventModel {
        self.view()
    }
}

/// One finalized transaction: its digest and the events it emitted, in
/// emission order.
#[derive(Debug, Clone)]
pub struct Transaction {
    pub digest: String,
    pub events: Vec<RawEvent>,
}

/// Mathematical form of a transaction.
pub struct TransactionModel {
    pub digest: Seq<char>,
    pub events: Seq<RawEventModel>,
}

impl View for Transaction {
    type V = TransactionModel;

    open spec fn view(&self) -> TransactionModel {
        TransactionModel { digest: self.digest@, events: self.events.deep_view() }
    }
}

impl DeepView for Transaction {
    type V = TransactionModel;

    open spec fn deep_view(&self) -> TransactionModel {
        self.view()
    }
}

/// A sequentially numbered batch of finalized transactions, with the
/// wall-clock timestamp shared by everything in it.
#[derive(Debug, Clone)]
pub struct Checkpoint {
    pub sequence_number: u64,
    pub timestamp_ms: u64,
    pub transactions: Vec<Transaction>,
}

/// Mathematical form of a checkpoint.
pub struct CheckpointModel {
    pub sequence_number: u64,
    pub timestamp_ms: u64,
    pub transactions: Seq<TransactionModel>,
}

impl View for Checkpoint {
    type V = CheckpointModel;

    open spec fn view(&self) -> CheckpointModel {
        CheckpointModel {
            sequence_number: self.sequence_number,
            timestamp_ms: self.timestamp_ms,
            transactions: self.transactions.deep_view(),
        }
    }
}

} // verus!
