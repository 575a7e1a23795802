//! The recorder actor: serves the `Record` wire operation by minting a
//! fresh identifier from the storage handle, and counts the records it has
//! accepted for the status query.

use vstd::prelude::*;

use crate::schema_poc::spirit_recorder::{
    Identifier, RecordAccepted, RecorderAction, RecorderResponse, RecorderStatus,
    RecorderStatusReturned,
};
use crate::schema_poc::storage::SpiritStorageHandle;

verus! {

/// The recorder: the storage it mints identifiers from, and the number of
/// records it has accepted.
pub struct SpiritRecorder {
    storage: SpiritStorageHandle,
    records_observed: u64,
}

impl SpiritRecorder {
    pub closed spec fn storage(&self) -> SpiritStorageHandle {
        self.storage
    }

    pub closed spec fn records_observed(&self) -> u64 {
        self.records_observed
    }

    /// Every accepted record took one identifier from the mint, which
    /// starts at 1.
    pub open spec fn wf(&self) -> bool {
        self.records_observed() + 1 == self.storage().next_identifier()
    }

    pub fn new(storage: SpiritStorageHandle) -> (recorder: Self)
        requires
            storage.next_identifier() == 1,
        ensures
            recorder.wf(),
            recorder.storage() == storage,
            recorder.records_observed() == 0,
    {
        SpiritRecorder { storage, records_observed: 0 }
    }

    pub fn storage_handle(&self) -> (storage: &SpiritStorageHandle)
        ensures
            *storage == self.storage(),
    {
        &self.storage
    }

    /// The match block between the recorder's actions and its responses.
    pub fn handle(&mut self, action: RecorderAction) -> (response: RecorderResponse)
        requires
            old(self).wf(),
            old(self).storage().next_identifier() < u64::MAX,
        ensures
            final(self).wf(),
            final(self).storage().spec_location() == old(self).storage().spec_location(),
            final(self).storage().spec_marker() == old(self).storage().spec_marker(),
            final(self).storage().spec_log() == old(self).storage().spec_log(),
            match action {
                RecorderAction::RecordEntry(_) => {
                    &&& response == RecorderResponse::RecordAccepted(
                        RecordAccepted(Identifier(old(self).storage().next_identifier())),
                    )
                    &&& final(self).records_observed() == old(self).records_observed() + 1
                },
                RecorderAction::QueryRecorderStatus(_) => {
                    &&& response == RecorderResponse::RecorderStatusReturned(
                        RecorderStatusReturned(
                            RecorderStatus { u64: old(self).records_observed(), u64_2: 0 },
                        ),
                    )
                    &&& *final(self) == *old(self)
                },
            },
    {
        match action {
            RecorderAction::RecordEntry(_request) => self.record_entry(),
            RecorderAction::QueryRecorderStatus(_request) => self.query_status(),
        }
    }

    fn record_entry(&mut self) -> (response: RecorderResponse)
        requires
            old(self).wf(),
            old(self).storage().next_identifier() < u64::MAX,
        ensures
            final(self).wf(),
            response == RecorderResponse::RecordAccepted(
                RecordAccepted(Identifier(old(self).storage().next_identifier())),
            ),
            final(self).records_observed() == old(self).records_observed() + 1,
            final(self).storage().spec_location() == old(self).storage().spec_location(),
            final(self).storage().spec_marker() == old(self).storage().spec_marker(),
            final(self).storage().spec_log() == old(self).storage().spec_log(),
    {
        let identifier = self.storage.mint_identifier();
        self.records_observed = self.records_observed + 1;
        RecorderResponse::RecordAccepted(RecordAccepted(Identifier(identifier)))
    }

    fn query_status(&self) -> (response: RecorderResponse)
        ensures
            response == RecorderResponse::RecorderStatusReturned(
                RecorderStatusReturned(RecorderStatus { u64: self.records_observed(), u64_2: 0 }),
            ),
    {
        RecorderResponse::RecorderStatusReturned(
            RecorderStatusReturned(RecorderStatus { u64: self.records_observed, u64_2: 0 }),
        )
    }
}

} // verus!
