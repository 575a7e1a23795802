//! The proof-of-concept daemon glue: routes each v0.3 wire operation to the
//! internal-channel action of the right actor and maps the actor's response
//! back to the v0.3 wire reply.

use vstd::prelude::*;

use crate::history::{count_set, lemma_count_grows, lemma_counter_prefix};
use crate::record::{Topic, topic_words};
use crate::schema_poc::observer::SpiritObserver;
use crate::schema_poc::recorder::SpiritRecorder;
use crate::schema_poc::spirit_observer::{ObserveRecordsRequest, ObserveTopicsRequest, ObserverAction, ObserverResponse};
use crate::schema_poc::spirit_recorder::{
    Certainty, Entry as RecorderEntry, Identifier, RecordEntryRequest, RecorderAction,
    RecorderResponse, Topics as RecorderTopics,
};
use crate::schema_poc::storage::{SpiritStorageHandle, StorageLocation};
use crate::schema_poc::wire::{
    Entry, Magnitude, Observation, ObservationMode, Operation, RecordAccepted, RecordIdentifier,
    RecordProvenancesObserved, RecordsObserved, Reply, RequestUnimplemented, TopicsObserved,
    UnimplementedReason,
};

verus! {

/// The recorder's certainty step for a wire certainty.
pub open spec fn certainty_of(certainty: Magnitude) -> Certainty {
    match certainty {
        Magnitude::Minimum => Certainty::Minimum,
        Magnitude::VeryLow => Certainty::VeryLow,
        Magnitude::Low => Certainty::Low,
        Magnitude::Medium => Certainty::Medium,
        Magnitude::High => Certainty::High,
        Magnitude::VeryHigh => Certainty::VeryHigh,
        Magnitude::Maximum => Certainty::Maximum,
    }
}

pub fn recorder_certainty(certainty: Magnitude) -> (step: Certainty)
    ensures
        step == certainty_of(certainty),
{
    match certainty {
        Magnitude::Minimum => Certainty::Minimum,
        Magnitude::VeryLow => Certainty::VeryLow,
        Magnitude::Low => Certainty::Low,
        Magnitude::Medium => Certainty::Medium,
        Magnitude::High => Certainty::High,
        Magnitude::VeryHigh => Certainty::VeryHigh,
        Magnitude::Maximum => Certainty::Maximum,
    }
}

/// The recorder's entry for a wire entry: the same topics, kind and
/// description, and the matching certainty step.
pub fn recorder_entry(entry: Entry) -> (converted: RecorderEntry)
    ensures
        topic_words(converted.topics.0@) == entry.topics@,
        converted.kind == entry.kind,
        converted.description@ == entry.description@,
        converted.certainty == certainty_of(entry.certainty),
{
    let slice = entry.topics.as_slice();
    let mut topics: Vec<Topic> = Vec::new();
    let mut index: usize = 0;
    while index < slice.len()
        invariant
            index <= slice@.len(),
            topic_words(slice@) == entry.topics@,
            topics@.len() == index,
            forall|i: int| 0 <= i < index ==> (#[trigger] topics@[i])@ == slice@[i]@,
        decreases slice@.len() - index,
    {
        topics.push(slice[index].clone());
        index = index + 1;
    }
    proof {
        assert(topic_words(topics@) =~= topic_words(slice@));
    }
    RecorderEntry {
        topics: RecorderTopics(topics),
        kind: entry.kind,
        description: entry.description,
        certainty: recorder_certainty(entry.certainty),
    }
}

/// Whether `reply` is the "not built yet" answer.
pub open spec fn is_unimplemented(reply: Reply) -> bool {
    reply == Reply::RequestUnimplemented(
        RequestUnimplemented { reason: UnimplementedReason::NotBuiltYet },
    )
}

/// What the daemon answers to an operation other than `Record`.
pub open spec fn answers_without_recording(operation: Operation, reply: Reply) -> bool {
    match operation {
        Operation::Observe(Observation::Topics) => reply matches Reply::TopicsObserved(observed)
            && observed.topics@.len() == 0,
        Operation::Observe(Observation::Records(query)) => match query.mode {
            ObservationMode::DescriptionOnly => reply matches Reply::RecordsObserved(observed)
                && observed.records@.len() == 0,
            ObservationMode::WithProvenance => reply matches Reply::RecordProvenancesObserved(
                observed,
            ) && observed.records@.len() == 0,
        },
        _ => is_unimplemented(reply),
    }
}

/// The daemon: the recorder (which owns the storage) and the observer.
pub struct PocDaemon {
    pub recorder: SpiritRecorder,
    pub observer: SpiritObserver,
}

impl PocDaemon {
    pub open spec fn wf(&self) -> bool {
        self.recorder.wf()
    }

    /// The identifier the next `Record` gets.
    pub open spec fn next_identifier(&self) -> u64 {
        self.recorder.storage().next_identifier()
    }

    /// Opens the daemon over fresh in-memory storage.
    pub fn open_fresh() -> (daemon: Self)
        ensures
            daemon.wf(),
            daemon.next_identifier() == 1,
            daemon.recorder.storage().spec_location() == StorageLocation::InMemory,
            daemon.recorder.storage().spec_marker() == crate::schema_poc::storage::next_marker(),
            daemon.recorder.storage().spec_log() == seq![
                crate::schema_poc::storage::UpgradeLogRecord {
                    from: crate::schema_poc::storage::next_marker(),
                    to: crate::schema_poc::storage::next_marker(),
                    outcome: crate::schema_poc::spirit_storage::UpgradeOutcome::NoMigrationNeeded,
                },
            ],
    {
        let storage = SpiritStorageHandle::open(StorageLocation::InMemory).unwrap();
        let observer = SpiritObserver::new(&storage);
        let recorder = SpiritRecorder::new(storage);
        PocDaemon { recorder, observer }
    }

    pub fn storage(&self) -> (storage: &SpiritStorageHandle)
        ensures
            *storage == self.recorder.storage(),
    {
        self.recorder.storage_handle()
    }

    /// The daemon's contact point: one v0.3 operation in, one v0.3 reply
    /// out. `Record` takes the next identifier; every other operation
    /// leaves the daemon as it was.
    pub fn dispatch(&mut self, operation: Operation) -> (reply: Reply)
        requires
            old(self).wf(),
            old(self).next_identifier() < u64::MAX,
        ensures
            final(self).wf(),
            final(self).next_identifier() == old(self).next_identifier() + if operation is Record {
                1int
            } else {
                0int
            },
            match operation {
                Operation::Record(_) => {
                    &&& reply == Reply::RecordAccepted(
                        RecordAccepted { identifier: RecordIdentifier(old(self).next_identifier()) },
                    )
                    &&& final(self).next_identifier() == old(self).next_identifier() + 1
                },
                _ => {
                    &&& answers_without_recording(operation, reply)
                    &&& final(self).next_identifier() == old(self).next_identifier()
                },
            },
    {
        match operation {
            Operation::Record(entry) => self.record(entry),
            Operation::State(_statement) => Self::unimplemented_reply(),
            Operation::Observe(observation) => self.observe(observation),
            Operation::Watch(_subscription) => Self::unimplemented_reply(),
            Operation::Unwatch(_token) => Self::unimplemented_reply(),
            Operation::Tap(_subscription) => Self::unimplemented_reply(),
            Operation::Untap(_token) => Self::unimplemented_reply(),
        }
    }

    fn record(&mut self, entry: Entry) -> (reply: Reply)
        requires
            old(self).wf(),
            old(self).next_identifier() < u64::MAX,
        ensures
            final(self).wf(),
            reply == Reply::RecordAccepted(
                RecordAccepted { identifier: RecordIdentifier(old(self).next_identifier()) },
            ),
            final(self).next_identifier() == old(self).next_identifier() + 1,
    {
        let action = RecorderAction::RecordEntry(RecordEntryRequest(recorder_entry(entry)));
        match self.recorder.handle(action) {
            RecorderResponse::RecordAccepted(payload) => {
                let Identifier(value) = payload.0;
                Reply::RecordAccepted(RecordAccepted::new(RecordIdentifier::new(value)))
            },
            _ => Self::unimplemented_reply(),
        }
    }

    fn observe(&self, observation: Observation) -> (reply: Reply)
        ensures
            answers_without_recording(Operation::Observe(observation), reply),
    {
        match observation {
            Observation::Topics => {
                let action = ObserverAction::ObserveTopics(ObserveTopicsRequest(0));
                match self.observer.handle(action) {
                    ObserverResponse::TopicsObserved(_payload) => Reply::TopicsObserved(
                        TopicsObserved { topics: Vec::new() },
                    ),
                    _ => Self::unimplemented_reply(),
                }
            },
            Observation::Records(query) => {
                let request = ObserveRecordsRequest { optionTopic: None, optionKind: None };
                let action = match query.mode {
                    ObservationMode::DescriptionOnly => {
                        ObserverAction::ObserveRecordsDescriptionOnly(request)
                    },
                    ObservationMode::WithProvenance => ObserverAction::ObserveRecordsWithProvenance(
                        request,
                    ),
                };
                match self.observer.handle(action) {
                    ObserverResponse::RecordsObserved(_payload) => Reply::RecordsObserved(
                        RecordsObserved { records: Vec::new() },
                    ),
                    ObserverResponse::RecordProvenancesObserved(_payload) => {
                        Reply::RecordProvenancesObserved(
                            RecordProvenancesObserved { records: Vec::new() },
                        )
                    },
                    _ => Self::unimplemented_reply(),
                }
            },
            Observation::State => Self::unimplemented_reply(),
            Observation::Questions => Self::unimplemented_reply(),
        }
    }

    fn unimplemented_reply() -> (reply: Reply)
        ensures
            is_unimplemented(reply),
    {
        Reply::RequestUnimplemented(RequestUnimplemented { reason: UnimplementedReason::NotBuiltYet })
    }
}

/// Which operations of a run record an entry.
pub open spec fn record_flags(operations: Seq<Operation>) -> Seq<bool> {
    Seq::new(operations.len(), |k: int| operations[k] is Record)
}

/// A fresh daemon accepts its records as 1, 2, 3, ... whatever else
/// arrives in between: each `Record` is accepted under one more than the
/// records before it, so accepted identifiers rise and never repeat.
pub proof fn law_records_accepted_count_up(
    daemons: Seq<PocDaemon>,
    operations: Seq<Operation>,
    replies: Seq<Reply>,
)
    requires
        daemons.len() == operations.len() + 1,
        replies.len() == operations.len(),
        daemons[0].next_identifier() == 1,
        forall|i: int|
            0 <= i < operations.len() ==> #[trigger] daemons[i + 1].next_identifier()
                == daemons[i].next_identifier() + if operations[i] is Record {
                1int
            } else {
                0int
            },
        forall|i: int|
            0 <= i < operations.len() && operations[i] is Record ==> #[trigger] replies[i]
                == Reply::RecordAccepted(
                RecordAccepted { identifier: RecordIdentifier(daemons[i].next_identifier()) },
            ),
    ensures
        forall|i: int|
            0 <= i < daemons.len() ==> #[trigger] daemons[i].next_identifier() == count_set(
                record_flags(operations).take(i),
            ) + 1,
        forall|i: int|
            0 <= i < operations.len() && operations[i] is Record ==> #[trigger] replies[i]
                == Reply::RecordAccepted(
                RecordAccepted {
                    identifier: RecordIdentifier(
                        (count_set(record_flags(operations).take(i)) + 1) as u64,
                    ),
                },
            ),
        forall|i: int, j: int|
            0 <= i < j < operations.len() && operations[i] is Record && operations[j] is Record
                ==> #[trigger] replies[i] != #[trigger] replies[j],
{
    let flags = record_flags(operations);
    let counters = Seq::new(daemons.len(), |k: int| daemons[k].next_identifier() as int);
    assert forall|k: int| 0 <= k < flags.len() implies #[trigger] counters[k + 1] == counters[k]
        + if flags[k] {
        1int
    } else {
        0int
    } by {
        assert(daemons[k + 1].next_identifier() == daemons[k].next_identifier() + if operations[k] is Record {
            1int
        } else {
            0int
        });
    }
    assert forall|i: int| 0 <= i < daemons.len() implies #[trigger] daemons[i].next_identifier()
        == count_set(flags.take(i)) + 1 by {
        lemma_counter_prefix(counters, flags, 1, i);
    }
    assert forall|i: int, j: int|
        0 <= i < j < operations.len() && operations[i] is Record && operations[j] is Record
            implies #[trigger] replies[i] != #[trigger] replies[j] by {
        lemma_count_grows(flags, i, j);
        lemma_counter_prefix(counters, flags, 1, i);
        lemma_counter_prefix(counters, flags, 1, j);
    }
}

} // verus!
