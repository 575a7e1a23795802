//! The observer actor: serves the `Observe Topics` and `Observe Records`
//! wire operations. It answers each with an empty result of the shape the
//! wire contract gives.

use vstd::prelude::*;

use crate::schema_poc::spirit_observer::{
    ObserverAction, ObserverResponse, RecordProvenancesObserved, RecordsObserved, TopicsObserved,
};
use crate::schema_poc::storage::{SpiritStorageHandle, StorageLocation};

verus! {

/// The observer: it knows where the storage lives.
pub struct SpiritObserver {
    storage: StorageLocation,
}

/// Whether `response` is the empty answer of the shape `action` asks for.
pub open spec fn observer_answers(action: ObserverAction, response: ObserverResponse) -> bool {
    match action {
        ObserverAction::ObserveTopics(_) => response matches ObserverResponse::TopicsObserved(
            observed,
        ) && observed.0@.len() == 0,
        ObserverAction::ObserveRecordsDescriptionOnly(_) => response matches ObserverResponse::RecordsObserved(
            observed,
        ) && observed.0@.len() == 0,
        ObserverAction::ObserveRecordsWithProvenance(_) => response matches ObserverResponse::RecordProvenancesObserved(
            observed,
        ) && observed.0@.len() == 0,
    }
}

impl SpiritObserver {
    pub closed spec fn storage(&self) -> StorageLocation {
        self.storage
    }

    pub fn new(storage: &SpiritStorageHandle) -> (observer: Self)
        ensures
            observer.storage() == storage.spec_location(),
    {
        SpiritObserver { storage: *storage.location() }
    }

    /// The match block between the observer's actions and its responses.
    pub fn handle(&self, action: ObserverAction) -> (response: ObserverResponse)
        ensures
            observer_answers(action, response),
    {
        match action {
            ObserverAction::ObserveTopics(_request) => ObserverResponse::TopicsObserved(
                TopicsObserved(Vec::new()),
            ),
            ObserverAction::ObserveRecordsDescriptionOnly(_request) => {
                ObserverResponse::RecordsObserved(RecordsObserved(Vec::new()))
            },
            ObserverAction::ObserveRecordsWithProvenance(_request) => {
                ObserverResponse::RecordProvenancesObserved(RecordProvenancesObserved(Vec::new()))
            },
        }
    }
}

} // verus!
