//! The recorder's internal channel: its action and response vocabulary.

use vstd::prelude::*;

use crate::record::{Description, Kind, Topic};

verus! {

#[derive(Debug, Clone, Copy, PartialEq, Eq, Hash, Structural)]
pub struct Identifier(pub u64);

#[derive(Debug, Clone, Copy, PartialEq, Eq, Hash, Structural)]
pub enum Certainty {
    Minimum,
    VeryLow,
    Low,
    Medium,
    High,
    VeryHigh,
    Maximum,
}

#[derive(Debug, PartialEq, Eq)]
pub struct Topics(pub Vec<Topic>);

#[derive(Debug, PartialEq, Eq)]
pub struct Entry {
    pub topics: Topics,
    pub kind: Kind,
    pub description: Description,
    pub certainty: Certainty,
}

#[derive(Debug, PartialEq, Eq)]
pub struct RecordEntryRequest(pub Entry);

#[derive(Debug, Clone, Copy, PartialEq, Eq, Structural)]
pub struct QueryRecorderStatusRequest(pub u64);

#[derive(Debug, Clone, Copy, PartialEq, Eq, Structural)]
pub struct RecordAccepted(pub Identifier);

#[derive(Debug, Clone, Copy, PartialEq, Eq, Structural)]
pub struct RecorderStatus {
    pub u64: u64,
    pub u64_2: u64,
}

#[derive(Debug, Clone, Copy, PartialEq, Eq, Structural)]
pub struct RecorderStatusReturned(pub RecorderStatus);

/// The recorder's ACTION enum.
#[derive(Debug, PartialEq, Eq)]
pub enum RecorderAction {
    RecordEntry(RecordEntryRequest),
    QueryRecorderStatus(QueryRecorderStatusRequest),
}

/// The recorder's RESPONSE enum, with the universal `Unknown` floor.
#[derive(Debug, PartialEq, Eq)]
pub enum RecorderResponse {
    RecordAccepted(RecordAccepted),
    RecorderStatusReturned(RecorderStatusReturned),
    Unknown(String),
}

} // verus!
