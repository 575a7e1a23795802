//! The upgrade handover: how a running daemon hands its store to the next
//! version over the private upgrade socket.
//!
//! The daemon is `Active` until a successor reports it is ready with the
//! marker it read; if no commit happened since, the daemon enters handover
//! mode with that marker. The successor then reports completion with the
//! accepted marker; if still nothing was committed, the daemon finalizes
//! and from then on only mirrors stamped entries written by the successor.

use vstd::prelude::*;

use crate::clock::{reading_at, ClockReading};
use crate::error::Error;
use crate::record::{Date, Time};
use crate::store::{SpiritStore, StampedEntry};

verus! {

/// The name of a component.
#[derive(Debug, PartialEq, Eq)]
pub struct ComponentName {
    name: String,
}

impl View for ComponentName {
    type V = Seq<char>;

    closed spec fn view(&self) -> Seq<char> {
        self.name@
    }
}

impl Clone for ComponentName {
    fn clone(&self) -> (copy: Self)
        ensures
            copy@ == self@,
    {
        ComponentName { name: self.name.clone() }
    }
}

impl ComponentName {
    pub fn new(name: String) -> (component: Self)
        ensures
            component@ == name@,
    {
        ComponentName { name }
    }

    pub fn as_str(&self) -> (name: &str)
        ensures
            name@ == self@,
    {
        self.name.as_str()
    }

    pub fn same_as(&self, other: &ComponentName) -> (same: bool)
        ensures
            same == (self@ == other@),
    {
        self.name == other.name
    }
}

/// A contract's version: a 32-byte schema hash.
#[derive(Debug, Clone, Copy, PartialEq, Eq)]
pub struct ContractVersion {
    bytes: [u8; 32],
}

impl View for ContractVersion {
    type V = Seq<u8>;

    closed spec fn view(&self) -> Seq<u8> {
        self.bytes@
    }
}

impl ContractVersion {
    pub fn new(bytes: [u8; 32]) -> (version: Self)
        ensures
            version@ == bytes@,
    {
        ContractVersion { bytes }
    }

    pub fn bytes(&self) -> (bytes: [u8; 32])
        ensures
            bytes@ == self@,
    {
        self.bytes
    }

    pub fn same_as(&self, other: &ContractVersion) -> (same: bool)
        ensures
            same == (self@ == other@),
    {
        let mut at: usize = 0;
        while at < 32
            invariant
                at <= 32,
                self@.len() == 32,
                other@.len() == 32,
                forall|j: int| 0 <= j < at ==> self@[j] == other@[j],
            decreases 32 - at,
        {
            if self.bytes[at] != other.bytes[at] {
                return false;
            }
            at += 1;
        }
        assert(self@ =~= other@);
        true
    }
}

/// The contract version of the spirit store's persisted row shape.
pub fn spirit_contract_version() -> (version: ContractVersion)
    ensures
        version@ == spirit_schema_hash(),
{
    let mut bytes = [0u8; 32];
    bytes[29] = 4;
    let version = ContractVersion::new(bytes);
    assert(version@ =~= spirit_schema_hash());
    version
}

/// A store's position at one moment: what a successor compares against.
#[derive(Debug, PartialEq, Eq)]
pub struct HandoverMarker {
    pub component: ComponentName,
    pub schema_hash: ContractVersion,
    pub commit_sequence: u64,
    pub write_counter: u64,
    pub last_record_identifier: Option<u64>,
    pub recorded_at_date: Date,
    pub recorded_at_time: Time,
}

/// The plain content of a marker.
pub struct HandoverMarkerView {
    pub component: Seq<char>,
    pub schema_hash: Seq<u8>,
    pub commit_sequence: u64,
    pub write_counter: u64,
    pub last_record_identifier: Option<u64>,
    pub recorded_at_date: Date,
    pub recorded_at_time: Time,
}

impl View for HandoverMarker {
    type V = HandoverMarkerView;

    open spec fn view(&self) -> HandoverMarkerView {
        HandoverMarkerView {
            component: self.component@,
            schema_hash: self.schema_hash@,
            commit_sequence: self.commit_sequence,
            write_counter: self.write_counter,
            last_record_identifier: self.last_record_identifier,
            recorded_at_date: self.recorded_at_date,
            recorded_at_time: self.recorded_at_time,
        }
    }
}

impl Clone for HandoverMarker {
    fn clone(&self) -> (copy: Self)
        ensures
            copy@ == self@,
    {
        HandoverMarker {
            component: self.component.clone(),
            schema_hash: self.schema_hash,
            commit_sequence: self.commit_sequence,
            write_counter: self.write_counter,
            last_record_identifier: self.last_record_identifier,
            recorded_at_date: self.recorded_at_date,
            recorded_at_time: self.recorded_at_time,
        }
    }
}

impl HandoverMarker {
    /// Whether two markers are the same in every field.
    pub fn same_as(&self, other: &HandoverMarker) -> (same: bool)
        ensures
            same == (self@ == other@),
    {
        self.component.same_as(&other.component) && self.schema_hash.same_as(&other.schema_hash)
            && self.commit_sequence == other.commit_sequence && self.write_counter
            == other.write_counter && self.last_record_identifier == other.last_record_identifier
            && self.recorded_at_date == other.recorded_at_date && self.recorded_at_time
            == other.recorded_at_time
    }
}

/// The marker a store shows when read at `now` seconds after the epoch.
pub open spec fn marker_of(
    store: &SpiritStore,
    component: Seq<char>,
    schema_hash: Seq<u8>,
    now: nat,
) -> HandoverMarkerView {
    HandoverMarkerView {
        component,
        schema_hash,
        commit_sequence: store.commit_count(),
        write_counter: store.commit_count(),
        last_record_identifier: store.logged_identifier(),
        recorded_at_date: reading_at(now).date,
        recorded_at_time: reading_at(now).time,
    }
}

impl SpiritStore {
    /// The store's handover marker for `component`, read at
    /// `now_unix_seconds`: the commit count (also the write counter), the
    /// highest identifier ever committed, and the reading's date and time.
    pub fn handover_marker(
        &self,
        component: &ComponentName,
        schema_hash: ContractVersion,
        now_unix_seconds: u64,
    ) -> (marker: Result<HandoverMarker, Error>)
        requires
            self.wf(),
        ensures
            marker matches Ok(shown) && shown@ == marker_of(
                self,
                component@,
                schema_hash@,
                now_unix_seconds as nat,
            ),
    {
        let reading = ClockReading::from_unix_seconds(now_unix_seconds);
        let commit_sequence = self.commit_sequence();
        Ok(
            HandoverMarker {
                component: component.clone(),
                schema_hash,
                commit_sequence,
                write_counter: commit_sequence,
                last_record_identifier: self.last_record_identifier(),
                recorded_at_date: reading.date,
                recorded_at_time: reading.time,
            },
        )
    }
}

/// Why a handover step was refused.
#[derive(Debug, Clone, Copy, PartialEq, Eq, Structural)]
pub enum HandoverRejectionReason {
    CommitSequenceAdvanced,
    AlreadyInHandover,
    NotReady,
    SchemaMismatch,
}

/// A successor's readiness report, carrying the marker it read.
#[derive(Debug, PartialEq, Eq)]
pub struct HandoverReadiness {
    pub component: ComponentName,
    pub source_marker: HandoverMarker,
}

/// A successor's completion report, carrying the marker it was accepted with.
#[derive(Debug, PartialEq, Eq)]
pub struct HandoverCompletion {
    pub component: ComponentName,
    pub accepted_marker: HandoverMarker,
}

/// A mirrored write from the successor: the payload's kind, the contract
/// version the successor wrote it under, and the stamped entry it decoded
/// to (`None` when the bytes did not decode).
#[derive(Debug, PartialEq, Eq)]
pub struct MirrorPayload {
    pub component: ComponentName,
    pub kind: String,
    pub target_version: ContractVersion,
    pub entry: Option<StampedEntry>,
}

/// The kind of mirrored payload this store accepts.
pub open spec fn mirror_kind_stamped_entry() -> Seq<char> {
    "StampedEntry"@
}

/// A request on the private upgrade socket.
#[derive(Debug, PartialEq, Eq)]
pub enum UpgradeOperation {
    AskHandoverMarker(ComponentName),
    ReadyToHandover(HandoverReadiness),
    HandoverCompleted(HandoverCompletion),
    Mirror(MirrorPayload),
    Divergence(ComponentName),
    RecoverFromFailure(ComponentName),
}

/// A reply on the private upgrade socket.
#[derive(Debug, PartialEq, Eq)]
pub enum UpgradeReply {
    HandoverMarker(HandoverMarker),
    HandoverAccepted { accepted_marker: HandoverMarker },
    HandoverRejected { component: ComponentName, reason: HandoverRejectionReason },
    HandoverFinalized { finalized_marker: HandoverMarker },
    MirrorAcknowledged { component: ComponentName, write_counter: u64 },
    DivergenceAcknowledged { component: ComponentName, divergence_identifier: u64 },
    RecoveryCompleted { component: ComponentName, recovered: bool },
}

/// Whether a reply is the rejection of `component` for `reason`.
pub open spec fn is_rejection(
    reply: UpgradeReply,
    component: Seq<char>,
    reason: HandoverRejectionReason,
) -> bool {
    reply matches UpgradeReply::HandoverRejected { component: refused, reason: why } && refused@
        == component && why == reason
}

/// Where the daemon stands in a handover.
#[derive(Debug, PartialEq, Eq)]
pub enum HandoverState {
    Active,
    HandoverMode { accepted_marker: HandoverMarker },
    PrivateUpgradeOnly,
}

/// The handover decision-maker of the root plane.
pub struct UpgradeController {
    state: HandoverState,
}

impl UpgradeController {
    pub fn new() -> (controller: Self)
        ensures
            controller.state() is Active,
    {
        UpgradeController { state: HandoverState::Active }
    }

    pub closed spec fn state(&self) -> HandoverState {
        self.state
    }

    pub fn is_active(&self) -> (active: bool)
        ensures
            active == (self.state() is Active),
    {
        match self.state {
            HandoverState::Active => true,
            _ => false,
        }
    }

    pub fn is_private_upgrade_only(&self) -> (private_only: bool)
        ensures
            private_only == (self.state() is PrivateUpgradeOnly),
    {
        match self.state {
            HandoverState::PrivateUpgradeOnly => true,
            _ => false,
        }
    }

    /// Answers one request on the upgrade socket, reading the store's
    /// marker at `now_unix_seconds` where a step needs it.
    #[verifier::rlimit(30)]
    pub fn submit_upgrade_request(
        &mut self,
        store: &mut SpiritStore,
        request: UpgradeOperation,
        now_unix_seconds: u64,
    ) -> (reply: Result<UpgradeReply, Error>)
        requires
            old(store).wf(),
        ensures
            final(store).wf(),
            match request {
                UpgradeOperation::AskHandoverMarker(component) => {
                    &&& reply matches Ok(UpgradeReply::HandoverMarker(marker)) && marker@ == marker_of(
                        old(store),
                        component@,
                        crate::handover::spirit_schema_hash(),
                        now_unix_seconds as nat,
                    )
                    &&& final(self).state() == old(self).state()
                    &&& final(store)@ == old(store)@
                },
                UpgradeOperation::ReadyToHandover(report) => {
                    &&& final(store)@ == old(store)@
                    &&& if !(old(self).state() is Active) {
                        &&& reply matches Ok(answer) && is_rejection(
                            answer,
                            report.component@,
                            HandoverRejectionReason::AlreadyInHandover,
                        )
                        &&& final(self).state() == old(self).state()
                    } else if report.source_marker.commit_sequence != old(store).commits() {
                        &&& reply matches Ok(answer) && is_rejection(
                            answer,
                            report.component@,
                            HandoverRejectionReason::CommitSequenceAdvanced,
                        )
                        &&& final(self).state() is Active
                    } else {
                        let marker = marker_of(
                            old(store),
                            report.component@,
                            crate::handover::spirit_schema_hash(),
                            now_unix_seconds as nat,
                        );
                        &&& reply matches Ok(UpgradeReply::HandoverAccepted { accepted_marker })
                            && accepted_marker@ == marker
                        &&& final(self).state() matches HandoverState::HandoverMode {
                            accepted_marker,
                        } && accepted_marker@ == marker
                    }
                },
                UpgradeOperation::HandoverCompleted(report) => {
                    &&& final(store)@ == old(store)@
                    &&& if !(old(self).state() matches HandoverState::HandoverMode {
                        accepted_marker,
                    } && accepted_marker@ == report.accepted_marker@) {
                        &&& reply matches Ok(answer) && is_rejection(
                            answer,
                            report.component@,
                            HandoverRejectionReason::NotReady,
                        )
                        &&& final(self).state() == old(self).state()
                    } else if old(store).commits() != report.accepted_marker.commit_sequence {
                        &&& reply matches Ok(answer) && is_rejection(
                            answer,
                            report.component@,
                            HandoverRejectionReason::CommitSequenceAdvanced,
                        )
                        &&& final(self).state() == old(self).state()
                    } else {
                        &&& reply matches Ok(UpgradeReply::HandoverFinalized { finalized_marker })
                            && finalized_marker@ == report.accepted_marker@
                        &&& final(self).state() is PrivateUpgradeOnly
                    }
                },
                UpgradeOperation::Mirror(payload) => {
                    &&& final(self).state() == old(self).state()
                    &&& if !(old(self).state() is PrivateUpgradeOnly) {
                        &&& reply matches Ok(answer) && is_rejection(
                            answer,
                            payload.component@,
                            HandoverRejectionReason::NotReady,
                        )
                        &&& final(store)@ == old(store)@
                    } else if payload.kind@ != mirror_kind_stamped_entry() || payload.target_version@
                        != spirit_schema_hash() || payload.entry is None {
                        &&& reply matches Ok(answer) && is_rejection(
                            answer,
                            payload.component@,
                            HandoverRejectionReason::SchemaMismatch,
                        )
                        &&& final(store)@ == old(store)@
                    } else {
                        let entry = payload.entry->0;
                        match reply {
                            Ok(answer) => {
                                &&& answer matches UpgradeReply::MirrorAcknowledged {
                                    component,
                                    write_counter,
                                } && component@ == payload.component@ && write_counter
                                    == final(store).commits()
                                &&& final(store).commits() == old(store).commits() + 1
                                &&& final(store).high_water() == old(store).next_identifier()
                                &&& final(store).logged_identifier() == Some(
                                    old(store).next_identifier() as u64,
                                )
                                &&& final(store)@ == old(store)@.push(
                                    crate::store::StoredRecordView {
                                        id: old(store).next_identifier() as u64,
                                        entry: entry@.entry,
                                        moment: entry@.moment,
                                    },
                                )
                            },
                            Err(error) => {
                                &&& final(store)@ == old(store)@
                                &&& final(store).commits() == old(store).commits()
                                &&& if !crate::store::topics_valid(entry@.entry.topics) {
                                    error is RequestRejected
                                } else {
                                    error is SpiritStore && old(store).next_identifier() > u64::MAX
                                }
                            },
                        }
                    }
                },
                UpgradeOperation::Divergence(component) => {
                    &&& reply matches Ok(UpgradeReply::DivergenceAcknowledged {
                        component: acknowledged,
                        divergence_identifier,
                    }) && acknowledged@ == component@ && divergence_identifier == 0
                    &&& final(self).state() == old(self).state()
                    &&& final(store)@ == old(store)@
                },
                UpgradeOperation::RecoverFromFailure(component) => {
                    &&& reply matches Ok(UpgradeReply::RecoveryCompleted {
                        component: recovering,
                        recovered,
                    }) && recovering@ == component@ && recovered == (old(self).state() is HandoverMode)
                    &&& if old(self).state() is HandoverMode {
                        final(self).state() is Active
                    } else {
                        final(self).state() == old(self).state()
                    }
                    &&& final(store)@ == old(store)@
                },
            },
    {
        match request {
            UpgradeOperation::AskHandoverMarker(component) => {
                let marker = store.handover_marker(&component, spirit_contract_version(), now_unix_seconds)?;
                Ok(UpgradeReply::HandoverMarker(marker))
            },
            UpgradeOperation::ReadyToHandover(report) => {
                if !self.is_active() {
                    return Ok(
                        UpgradeReply::HandoverRejected {
                            component: report.component,
                            reason: HandoverRejectionReason::AlreadyInHandover,
                        },
                    );
                }
                let marker = store.handover_marker(
                    &report.component,
                    spirit_contract_version(),
                    now_unix_seconds,
                )?;
                if marker.commit_sequence == report.source_marker.commit_sequence {
                    self.state = HandoverState::HandoverMode { accepted_marker: marker.clone() };
                    Ok(UpgradeReply::HandoverAccepted { accepted_marker: marker })
                } else {
                    Ok(
                        UpgradeReply::HandoverRejected {
                            component: report.component,
                            reason: HandoverRejectionReason::CommitSequenceAdvanced,
                        },
                    )
                }
            },
            UpgradeOperation::HandoverCompleted(report) => {
                let accepted = match &self.state {
                    HandoverState::HandoverMode { accepted_marker } => accepted_marker.same_as(
                        &report.accepted_marker,
                    ),
                    _ => false,
                };
                if !accepted {
                    return Ok(
                        UpgradeReply::HandoverRejected {
                            component: report.component,
                            reason: HandoverRejectionReason::NotReady,
                        },
                    );
                }
                let marker = store.handover_marker(
                    &report.component,
                    spirit_contract_version(),
                    now_unix_seconds,
                )?;
                if marker.commit_sequence != report.accepted_marker.commit_sequence {
                    Ok(
                        UpgradeReply::HandoverRejected {
                            component: report.component,
                            reason: HandoverRejectionReason::CommitSequenceAdvanced,
                        },
                    )
                } else {
                    self.state = HandoverState::PrivateUpgradeOnly;
                    Ok(UpgradeReply::HandoverFinalized { finalized_marker: report.accepted_marker })
                }
            },
            UpgradeOperation::Mirror(payload) => {
                if !self.is_private_upgrade_only() {
                    return Ok(
                        UpgradeReply::HandoverRejected {
                            component: payload.component,
                            reason: HandoverRejectionReason::NotReady,
                        },
                    );
                }
                let kind_matches = crate::trace::labels_equal(payload.kind.as_str(), "StampedEntry");
                proof {
                    reveal_strlit("StampedEntry");
                }
                let version_matches = payload.target_version.same_as(&spirit_contract_version());
                match payload.entry {
                    Some(entry) => {
                        if !kind_matches || !version_matches {
                            return Ok(
                                UpgradeReply::HandoverRejected {
                                    component: payload.component,
                                    reason: HandoverRejectionReason::SchemaMismatch,
                                },
                            );
                        }
                        store.assert_entry(entry)?;
                        Ok(
                            UpgradeReply::MirrorAcknowledged {
                                component: payload.component,
                                write_counter: store.commit_sequence(),
                            },
                        )
                    },
                    None => Ok(
                        UpgradeReply::HandoverRejected {
                            component: payload.component,
                            reason: HandoverRejectionReason::SchemaMismatch,
                        },
                    ),
                }
            },
            UpgradeOperation::Divergence(component) => {
                Ok(UpgradeReply::DivergenceAcknowledged { component, divergence_identifier: 0 })
            },
            UpgradeOperation::RecoverFromFailure(component) => {
                let recovered = match &self.state {
                    HandoverState::HandoverMode { .. } => true,
                    _ => false,
                };
                if recovered {
                    self.state = HandoverState::Active;
                }
                Ok(UpgradeReply::RecoveryCompleted { component, recovered })
            },
        }
    }
}

/// The schema hash the store's markers carry.
pub open spec fn spirit_schema_hash() -> Seq<u8> {
    Seq::new(32, |i: int| if i == 29 { 4u8 } else { 0u8 })
}

} // verus!
