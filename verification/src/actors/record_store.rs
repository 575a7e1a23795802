//! The record-store plane: the one plane that owns the record store. It
//! writes accepted entries through the writer, answers observations and
//! subscription snapshots through the reader, and notes each step in the
//! request's trace.

use vstd::prelude::*;

use crate::actors::vocabulary::{PipelineReply, SpiritReply};
use crate::error::Error;
use crate::observation::RecordSubscriptionObservation;
use crate::catalog::{catalog_records, count_views, is_catalog, topic_total};
use crate::record::{Magnitude, MagnitudeSelection};
use crate::store::{
    CertaintyChange, ObservedRecords, RecordIdentifier, RecordIdentifierObservation,
    RecordChange, RecordObservation, RecordRemoved, RecordSummary, RemovalCandidateCollection,
    SpiritStore,
    StampedEntry, StoredRecordView, certainty_outcome, collection_outcome, identifier_result,
    max_nat, query_result, record_change_outcome, shows_records, summaries_of, summary_views, topic_records,
    topics_valid, without_identifier,
};
use crate::trace::{ActorTrace, TraceAction, TraceNode};

verus! {

/// The trace after a write: the plane and the writer receive the entry,
/// the writer commits it and the plane replies.
pub open spec fn write_steps(trace: Seq<(Seq<char>, TraceAction)>) -> Seq<(Seq<char>, TraceAction)> {
    trace.push(("RecordStore"@, TraceAction::MessageReceived)).push(
        ("SemaWriter"@, TraceAction::MessageReceived),
    ).push(("SemaWriter"@, TraceAction::RecordCommitted)).push(
        ("RecordStore"@, TraceAction::MessageReplied),
    )
}

/// The trace after a read: the plane and the reader receive the request,
/// the reader reads the records and the plane replies.
pub open spec fn read_steps(trace: Seq<(Seq<char>, TraceAction)>) -> Seq<(Seq<char>, TraceAction)> {
    trace.push(("RecordStore"@, TraceAction::MessageReceived)).push(
        ("SemaReader"@, TraceAction::MessageReceived),
    ).push(("SemaReader"@, TraceAction::RecordsRead)).push(
        ("RecordStore"@, TraceAction::MessageReplied),
    )
}

/// The summaries a subscription starts from, with the request's trace.
#[derive(Debug, PartialEq, Eq)]
pub struct RecordSnapshot {
    pub records: Vec<RecordSummary>,
    pub trace: ActorTrace,
}

/// The plane that owns the record store.
pub struct RecordStore {
    store: SpiritStore,
}

impl RecordStore {
    pub closed spec fn store(&self) -> SpiritStore {
        self.store
    }

    pub open spec fn wf(&self) -> bool {
        self.store().wf()
    }

    pub fn new(store: SpiritStore) -> (plane: Self)
        ensures
            plane.store() == store,
    {
        RecordStore { store }
    }

    /// Stores a stamped entry through the writer and answers with its
    /// receipt; a refused entry leaves the store as it was.
    pub fn capture_entry(&mut self, entry: StampedEntry, trace: ActorTrace) -> (reply: Result<
        PipelineReply,
        Error,
    >)
        requires
            old(self).wf(),
        ensures
            final(self).wf(),
            final(self).store().spec_location() == old(self).store().spec_location(),
            match reply {
                Ok(pipeline) => {
                    &&& topics_valid(entry@.entry.topics)
                    &&& pipeline.spec_reply() matches SpiritReply::RecordAccepted(receipt)
                        && receipt.identifier.value == old(self).store().next_identifier()
                        && final(self).store()@ == old(self).store()@.push(
                        StoredRecordView {
                            id: receipt.identifier.value,
                            entry: entry@.entry,
                            moment: entry@.moment,
                        },
                    )
                    &&& final(self).store().next_identifier() == old(self).store().next_identifier() + 1
                    &&& final(self).store().commits() == old(self).store().commits() + 1
                    &&& pipeline.spec_trace()@ == write_steps(trace@)
                },
                Err(error) => {
                    &&& final(self).store()@ == old(self).store()@
                    &&& final(self).store().commits() == old(self).store().commits()
                    &&& if !topics_valid(entry@.entry.topics) {
                        error is RequestRejected
                    } else {
                        error is SpiritStore && old(self).store().next_identifier() > u64::MAX
                    }
                },
            },
    {
        let mut trace = trace;
        trace.record(TraceNode::record_store(), TraceAction::MessageReceived);
        trace.record(TraceNode::sema_writer(), TraceAction::MessageReceived);
        let accepted = self.store.assert_entry(entry)?;
        trace.record(TraceNode::sema_writer(), TraceAction::RecordCommitted);
        trace.record(TraceNode::record_store(), TraceAction::MessageReplied);
        Ok(PipelineReply::new(SpiritReply::RecordAccepted(accepted), trace))
    }

    /// Answers a record observation through the reader.
    pub fn observe_records(&self, observation: &RecordObservation, trace: ActorTrace) -> (reply: Result<
        PipelineReply,
        Error,
    >)
        ensures
            reply matches Ok(pipeline) && pipeline.spec_trace()@ == read_steps(trace@) && match
                pipeline.spec_reply() {
                SpiritReply::RecordsObserved(summaries) => shows_records(
                    ObservedRecords::RecordsObserved(summaries),
                    observation.query.mode,
                    query_result(observation.query, self.store()@),
                ),
                SpiritReply::RecordProvenancesObserved(provenances) => shows_records(
                    ObservedRecords::RecordProvenancesObserved(provenances),
                    observation.query.mode,
                    query_result(observation.query, self.store()@),
                ),
                _ => false,
            },
    {
        let mut trace = trace;
        trace.record(TraceNode::record_store(), TraceAction::MessageReceived);
        trace.record(TraceNode::sema_reader(), TraceAction::MessageReceived);
        let observed = self.store.observe_records(observation)?;
        trace.record(TraceNode::sema_reader(), TraceAction::RecordsRead);
        trace.record(TraceNode::record_store(), TraceAction::MessageReplied);
        let reply = match observed {
            ObservedRecords::RecordsObserved(summaries) => SpiritReply::RecordsObserved(summaries),
            ObservedRecords::RecordProvenancesObserved(provenances) => {
                SpiritReply::RecordProvenancesObserved(provenances)
            },
        };
        Ok(PipelineReply::new(reply, trace))
    }

    /// The summaries a record subscription starts from: the records of its
    /// topic (any topic when it names none) that its privacy selection
    /// lets through, read through the reader.
    pub fn read_record_snapshot(
        &self,
        observation: &RecordSubscriptionObservation,
        trace: ActorTrace,
    ) -> (snapshot: Result<RecordSnapshot, Error>)
        ensures
            snapshot matches Ok(read) && read.trace@ == read_steps(trace@) && summary_views(
                read.records@,
            ) == summaries_of(
                topic_records(
                    match observation.subscription.topic {
                        Some(word) => Some(word@),
                        None => None,
                    },
                    observation.privacy_selection,
                    self.store()@,
                ),
            ),
    {
        let mut trace = trace;
        trace.record(TraceNode::record_store(), TraceAction::MessageReceived);
        trace.record(TraceNode::sema_reader(), TraceAction::MessageReceived);
        let records = self.store.summaries_for_topic(
            observation.subscription.topic.as_ref(),
            observation.privacy_selection,
        )?;
        trace.record(TraceNode::sema_reader(), TraceAction::RecordsRead);
        trace.record(TraceNode::record_store(), TraceAction::MessageReplied);
        Ok(RecordSnapshot { records, trace })
    }

    /// Removes one record through the writer; removing an absent record
    /// changes nothing but the commit count.
    pub fn remove_entry(&mut self, identifier: RecordIdentifier, trace: ActorTrace) -> (reply:
        PipelineReply)
        requires
            old(self).wf(),
        ensures
            final(self).wf(),
            final(self).store().spec_location() == old(self).store().spec_location(),
            reply.spec_reply() == SpiritReply::RecordRemoved(RecordRemoved { identifier }),
            final(self).store()@ == without_identifier(old(self).store()@, identifier.value),
            final(self).store().high_water() == max_nat(
                old(self).store().high_water(),
                identifier.value as nat,
            ),
            final(self).store().next_identifier() >= old(self).store().next_identifier(),
            reply.spec_trace()@ == write_steps(trace@),
    {
        let mut trace = trace;
        trace.record(TraceNode::record_store(), TraceAction::MessageReceived);
        trace.record(TraceNode::sema_writer(), TraceAction::MessageReceived);
        let removed = self.store.remove_entry(identifier);
        let receipt = match removed {
            Ok(receipt) => receipt,
            Err(_) => RecordRemoved::new(identifier),
        };
        trace.record(TraceNode::sema_writer(), TraceAction::RecordCommitted);
        trace.record(TraceNode::record_store(), TraceAction::MessageReplied);
        PipelineReply::new(SpiritReply::RecordRemoved(receipt), trace)
    }

    /// Sets one record's certainty through the writer.
    pub fn change_certainty(&mut self, change: CertaintyChange, trace: ActorTrace) -> (reply:
        Result<PipelineReply, Error>)
        requires
            old(self).wf(),
        ensures
            final(self).wf(),
            final(self).store().spec_location() == old(self).store().spec_location(),
            certainty_outcome(
                old(self).store(),
                final(self).store(),
                change,
                match reply {
                    Ok(pipeline) => match pipeline.spec_reply() {
                        SpiritReply::CertaintyChanged(receipt) => Ok(receipt),
                        _ => Err(Error::MissingSpiritSocket),
                    },
                    Err(error) => Err(error),
                },
            ),
            reply matches Ok(pipeline) ==> pipeline.spec_reply() is CertaintyChanged
                && pipeline.spec_trace()@ == write_steps(trace@),
    {
        let mut trace = trace;
        trace.record(TraceNode::record_store(), TraceAction::MessageReceived);
        trace.record(TraceNode::sema_writer(), TraceAction::MessageReceived);
        let changed = self.store.change_certainty(change)?;
        trace.record(TraceNode::sema_writer(), TraceAction::RecordCommitted);
        trace.record(TraceNode::record_store(), TraceAction::MessageReplied);
        Ok(PipelineReply::new(SpiritReply::CertaintyChanged(changed), trace))
    }

    /// Rewrites one record's user-authored fields through the writer.
    pub fn change_record(&mut self, change: &RecordChange, trace: ActorTrace) -> (reply: Result<
        PipelineReply,
        Error,
    >)
        requires
            old(self).wf(),
        ensures
            final(self).wf(),
            final(self).store().spec_location() == old(self).store().spec_location(),
            record_change_outcome(
                old(self).store(),
                final(self).store(),
                *change,
                match reply {
                    Ok(pipeline) => match pipeline.spec_reply() {
                        SpiritReply::RecordMutationApplied(receipt) => Ok(receipt),
                        _ => Err(Error::MissingSpiritSocket),
                    },
                    Err(error) => Err(error),
                },
            ),
            reply matches Ok(pipeline) ==> pipeline.spec_reply() is RecordMutationApplied
                && pipeline.spec_trace()@ == write_steps(trace@),
    {
        let mut trace = trace;
        trace.record(TraceNode::record_store(), TraceAction::MessageReceived);
        trace.record(TraceNode::sema_writer(), TraceAction::MessageReceived);
        let changed = self.store.change_record(RecordChange {
            record_identifier: change.record_identifier,
            entry: change.entry.clone(),
        })?;
        trace.record(TraceNode::sema_writer(), TraceAction::RecordCommitted);
        trace.record(TraceNode::record_store(), TraceAction::MessageReplied);
        Ok(PipelineReply::new(SpiritReply::RecordMutationApplied(changed), trace))
    }

    /// Collects removal candidates through the writer. `archive_written`
    /// tells whether the archive database took the candidates' summaries.
    pub fn collect_removal_candidates(
        &mut self,
        collection: &RemovalCandidateCollection,
        archive_written: bool,
        trace: ActorTrace,
    ) -> (reply: Result<PipelineReply, Error>)
        requires
            old(self).wf(),
        ensures
            final(self).wf(),
            final(self).store().spec_location() == old(self).store().spec_location(),
            collection_outcome(
                old(self).store(),
                final(self).store(),
                *collection,
                archive_written,
                match reply {
                    Ok(pipeline) => match pipeline.spec_reply() {
                        SpiritReply::RemovalCandidatesCollected(receipt) => Ok(receipt),
                        _ => Err(Error::MissingSpiritSocket),
                    },
                    Err(error) => Err(error),
                },
            ),
            reply matches Ok(pipeline) ==> pipeline.spec_reply() is RemovalCandidatesCollected
                && pipeline.spec_trace()@ == write_steps(trace@),
    {
        let mut trace = trace;
        trace.record(TraceNode::record_store(), TraceAction::MessageReceived);
        trace.record(TraceNode::sema_writer(), TraceAction::MessageReceived);
        let collected = self.store.collect_removal_candidates(collection, archive_written)?;
        trace.record(TraceNode::sema_writer(), TraceAction::RecordCommitted);
        trace.record(TraceNode::record_store(), TraceAction::MessageReplied);
        Ok(PipelineReply::new(SpiritReply::RemovalCandidatesCollected(collected), trace))
    }

    /// Answers an identifier lookup through the reader.
    pub fn observe_record_identifiers(
        &self,
        observation: RecordIdentifierObservation,
        trace: ActorTrace,
    ) -> (reply: Result<PipelineReply, Error>)
        ensures
            reply matches Ok(pipeline) && pipeline.spec_trace()@ == read_steps(trace@) && match
                pipeline.spec_reply() {
                SpiritReply::RecordsObserved(summaries) => shows_records(
                    ObservedRecords::RecordsObserved(summaries),
                    observation.query.mode,
                    identifier_result(observation, self.store()@),
                ),
                SpiritReply::RecordProvenancesObserved(provenances) => shows_records(
                    ObservedRecords::RecordProvenancesObserved(provenances),
                    observation.query.mode,
                    identifier_result(observation, self.store()@),
                ),
                _ => false,
            },
    {
        let mut trace = trace;
        trace.record(TraceNode::record_store(), TraceAction::MessageReceived);
        trace.record(TraceNode::sema_reader(), TraceAction::MessageReceived);
        let observed = self.store.observe_record_identifiers(observation)?;
        trace.record(TraceNode::sema_reader(), TraceAction::RecordsRead);
        trace.record(TraceNode::record_store(), TraceAction::MessageReplied);
        let reply = match observed {
            ObservedRecords::RecordsObserved(summaries) => SpiritReply::RecordsObserved(summaries),
            ObservedRecords::RecordProvenancesObserved(provenances) => {
                SpiritReply::RecordProvenancesObserved(provenances)
            },
        };
        Ok(PipelineReply::new(reply, trace))
    }

    /// Answers the topic catalog of the public records through the reader.
    pub fn observe_topics(&self, trace: ActorTrace) -> (reply: Result<PipelineReply, Error>)
        requires
            topic_total(
                catalog_records(self.store()@, MagnitudeSelection::Exact(Magnitude::Zero)),
            ) <= u64::MAX,
        ensures
            reply matches Ok(pipeline) && pipeline.spec_trace()@ == read_steps(trace@) && (
            pipeline.spec_reply() matches SpiritReply::TopicsObserved(observed) && is_catalog(
                count_views(observed.topics@),
                catalog_records(self.store()@, MagnitudeSelection::Exact(Magnitude::Zero)),
            )),
    {
        let mut trace = trace;
        trace.record(TraceNode::record_store(), TraceAction::MessageReceived);
        trace.record(TraceNode::sema_reader(), TraceAction::MessageReceived);
        let observed = self.store.observe_topics()?;
        trace.record(TraceNode::sema_reader(), TraceAction::RecordsRead);
        trace.record(TraceNode::record_store(), TraceAction::MessageReplied);
        Ok(PipelineReply::new(SpiritReply::TopicsObserved(observed), trace))
    }
}

} // verus!
