//! The observer's internal channel: its action and response vocabulary.

use vstd::prelude::*;

use crate::record::{Description, Kind, Topic};

verus! {

#[derive(Debug, Clone, Copy, PartialEq, Eq, Structural)]
pub struct ObserveTopicsRequest(pub u64);

#[allow(non_snake_case)]
#[derive(Debug, PartialEq, Eq)]
pub struct ObserveRecordsRequest {
    pub optionTopic: Option<Topic>,
    pub optionKind: Option<Kind>,
}

#[derive(Debug, PartialEq, Eq)]
pub struct TopicsObserved(pub Vec<Topic>);

#[derive(Debug, PartialEq, Eq)]
pub struct RecordsObserved(pub Vec<Description>);

#[derive(Debug, PartialEq, Eq)]
pub struct RecordProvenancesObserved(pub Vec<Description>);

/// The observer's ACTION enum.
#[derive(Debug, PartialEq, Eq)]
pub enum ObserverAction {
    ObserveTopics(ObserveTopicsRequest),
    ObserveRecordsDescriptionOnly(ObserveRecordsRequest),
    ObserveRecordsWithProvenance(ObserveRecordsRequest),
}

/// The observer's RESPONSE enum, with the universal `Unknown` floor.
#[derive(Debug, PartialEq, Eq)]
pub enum ObserverResponse {
    TopicsObserved(TopicsObserved),
    RecordsObserved(RecordsObserved),
    RecordProvenancesObserved(RecordProvenancesObserved),
    Unknown(String),
}

} // verus!
