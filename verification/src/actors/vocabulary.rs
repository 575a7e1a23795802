//! The ordinary channel's vocabulary: the operations a client sends and
//! the replies the planes answer with.

use vstd::prelude::*;

use crate::actors::classifier::Statement;
use crate::catalog::TopicsObserved;
use crate::record::{
    Description, Entry, Kind, Magnitude, MagnitudeSelection, ObservationMode, RecordQuery,
    RecordedTimeSelection, Topic, TopicSelection,
};
use crate::store::{
    CertaintyChange, CertaintyChanged, RecordAccepted, RecordChange, RecordIdentifier,
    RecordIdentifierQuery, RecordMutationApplied, RecordProvenance, RecordRemoved, RecordSummary,
    RemovalCandidateCollection, RemovalCandidatesCollected,
};
use crate::trace::ActorTrace;

verus! {

/// Whether the psyche is present.
#[derive(Debug, Clone, Copy, PartialEq, Eq, Structural)]
pub enum Presence {
    Absent,
    Present,
}

/// The psyche's working state: its presence and the topic it is focused
/// on, if any.
#[derive(Debug, PartialEq, Eq)]
pub struct State {
    pub presence: Presence,
    pub focus: Option<Topic>,
}

pub open spec fn focus_view(focus: Option<Topic>) -> Option<Seq<char>> {
    match focus {
        Some(topic) => Some(topic@),
        None => None,
    }
}

impl View for State {
    type V = (Presence, Option<Seq<char>>);

    open spec fn view(&self) -> (Presence, Option<Seq<char>>) {
        (self.presence, focus_view(self.focus))
    }
}

impl Clone for State {
    fn clone(&self) -> (state: Self)
        ensures
            state@ == self@,
    {
        let focus = match &self.focus {
            Some(topic) => Some(topic.clone()),
            None => None,
        };
        State { presence: self.presence, focus }
    }
}

/// A pending question.
#[derive(Debug, PartialEq, Eq)]
pub struct QuestionSummary {
    pub question: Description,
}

/// The token of an open state subscription.
#[derive(Debug, Clone, Copy, PartialEq, Eq, Structural)]
pub struct StateSubscriptionToken {
    pub identifier: u64,
}

/// The token of an open record subscription.
#[derive(Debug, Clone, Copy, PartialEq, Eq, Structural)]
pub struct RecordSubscriptionToken {
    pub identifier: u64,
}

#[derive(Debug, Clone, Copy, PartialEq, Eq, Structural)]
pub enum SubscriptionToken {
    State(StateSubscriptionToken),
    Records(RecordSubscriptionToken),
}

/// What a record subscription listens for.
#[derive(Debug, PartialEq, Eq)]
pub struct RecordSubscription {
    pub topic: Option<Topic>,
    pub mode: ObservationMode,
}

impl Clone for RecordSubscription {
    fn clone(&self) -> (copy: Self)
        ensures
            copy == *self,
    {
        let topic = match &self.topic {
            Some(word) => Some(word.clone()),
            None => None,
        };
        RecordSubscription { topic, mode: self.mode }
    }
}

/// What a subscription starts from.
#[derive(Debug, PartialEq, Eq)]
pub enum SubscriptionSnapshot {
    State(State),
    Records(Vec<RecordSummary>),
}

/// The kinds of ordinary-channel operation.
#[derive(Debug, Clone, Copy, PartialEq, Eq, Structural)]
pub enum OperationKind {
    Record,
    State,
    Observe,
    Watch,
    Unwatch,
    Remove,
    ChangeCertainty,
    ChangeRecord,
    CollectRemovalCandidates,
    Tap,
    Untap,
}

/// Why a request could not be served yet.
#[derive(Debug, Clone, Copy, PartialEq, Eq, Structural)]
pub enum UnimplementedReason {
    NotBuiltYet,
    IntegrationNotLanded,
    DependencyNotReady,
}

/// The token of an open observer tap.
#[derive(Debug, Clone, Copy, PartialEq, Eq, Structural)]
pub struct ObserverSubscriptionToken {
    pub identifier: u64,
}

/// What an observer tap listens for: every record, or the records of one
/// topic.
#[derive(Debug, PartialEq, Eq)]
pub enum ObserverFilter {
    All,
    Topic(Topic),
}

/// A reply of the ordinary channel.
#[derive(Debug, PartialEq, Eq)]
pub enum SpiritReply {
    RecordAccepted(RecordAccepted),
    RecordRemoved(RecordRemoved),
    CertaintyChanged(CertaintyChanged),
    RecordMutationApplied(RecordMutationApplied),
    RemovalCandidatesCollected(RemovalCandidatesCollected),
    StateObserved(State),
    RecordsObserved(Vec<RecordSummary>),
    RecordProvenancesObserved(Vec<RecordProvenance>),
    TopicsObserved(TopicsObserved),
    QuestionsObserved(Vec<QuestionSummary>),
    SubscriptionOpened { token: SubscriptionToken, snapshot: SubscriptionSnapshot },
    SubscriptionRetracted { token: SubscriptionToken },
    ObserverSubscriptionOpened(ObserverSubscriptionToken),
    RequestUnimplemented(UnimplementedReason),
}

/// A record query as an ordinary client sends it: every filter but
/// privacy, which a public query cannot choose.
#[derive(Debug, PartialEq, Eq)]
pub struct PublicRecordQuery {
    pub topic_selection: TopicSelection,
    pub kind: Option<Kind>,
    pub certainty_selection: MagnitudeSelection,
    pub recorded_time_selection: RecordedTimeSelection,
    pub mode: ObservationMode,
}

impl PublicRecordQuery {
    /// The full query: the public filters under the default observation
    /// privacy, exact `Zero`.
    pub fn into_record_query(self) -> (query: RecordQuery)
        ensures
            query == (RecordQuery {
                topic_selection: self.topic_selection,
                kind: self.kind,
                certainty_selection: self.certainty_selection,
                recorded_time_selection: self.recorded_time_selection,
                privacy_selection: MagnitudeSelection::Exact(Magnitude::Zero),
                mode: self.mode,
            }),
    {
        RecordQuery {
            topic_selection: self.topic_selection,
            kind: self.kind,
            certainty_selection: self.certainty_selection,
            recorded_time_selection: self.recorded_time_selection,
            privacy_selection: MagnitudeSelection::default_observation_privacy(),
            mode: self.mode,
        }
    }
}

/// A record-identifier lookup with the privacy levels it may see.
#[derive(Debug, PartialEq, Eq)]
pub struct PrivacyScopedRecordIdentifierQuery {
    pub record_identifier_query: RecordIdentifierQuery,
    pub privacy_selection: MagnitudeSelection,
}

/// A record subscription with the privacy levels it may see.
#[derive(Debug, PartialEq, Eq)]
pub struct PrivacyScopedRecordSubscription {
    pub record_subscription: RecordSubscription,
    pub privacy_selection: MagnitudeSelection,
}

/// What an observation asks for.
#[derive(Debug, PartialEq, Eq)]
pub enum Observation {
    Records(PublicRecordQuery),
    PrivateRecords(RecordQuery),
    RecordIdentifiers(RecordIdentifierQuery),
    PrivateRecordIdentifiers(PrivacyScopedRecordIdentifierQuery),
    Topics,
    State,
    Questions,
}

/// What a watch opens.
#[derive(Debug, PartialEq, Eq)]
pub enum Subscription {
    State,
    Records(RecordSubscription),
    PrivateRecords(PrivacyScopedRecordSubscription),
}

/// An operation of the ordinary channel.
#[derive(Debug, PartialEq, Eq)]
pub enum Operation {
    State(Statement),
    Record(Entry),
    Remove(RecordIdentifier),
    ChangeCertainty(CertaintyChange),
    ChangeRecord(RecordChange),
    CollectRemovalCandidates(RemovalCandidateCollection),
    Observe(Observation),
    Watch(Subscription),
    Unwatch(SubscriptionToken),
    Tap(ObserverFilter),
    Untap(ObserverSubscriptionToken),
}

impl Operation {
    /// The kind of the operation.
    pub fn kind(&self) -> (kind: OperationKind)
        ensures
            kind == operation_kind_of(*self),
    {
        match self {
            Operation::State(_) => OperationKind::State,
            Operation::Record(_) => OperationKind::Record,
            Operation::Remove(_) => OperationKind::Remove,
            Operation::ChangeCertainty(_) => OperationKind::ChangeCertainty,
            Operation::ChangeRecord(_) => OperationKind::ChangeRecord,
            Operation::CollectRemovalCandidates(_) => OperationKind::CollectRemovalCandidates,
            Operation::Observe(_) => OperationKind::Observe,
            Operation::Watch(_) => OperationKind::Watch,
            Operation::Unwatch(_) => OperationKind::Unwatch,
            Operation::Tap(_) => OperationKind::Tap,
            Operation::Untap(_) => OperationKind::Untap,
        }
    }
}

/// The kind of an operation: its variant.
pub open spec fn operation_kind_of(operation: Operation) -> OperationKind {
    match operation {
        Operation::State(_) => OperationKind::State,
        Operation::Record(_) => OperationKind::Record,
        Operation::Remove(_) => OperationKind::Remove,
        Operation::ChangeCertainty(_) => OperationKind::ChangeCertainty,
        Operation::ChangeRecord(_) => OperationKind::ChangeRecord,
        Operation::CollectRemovalCandidates(_) => OperationKind::CollectRemovalCandidates,
        Operation::Observe(_) => OperationKind::Observe,
        Operation::Watch(_) => OperationKind::Watch,
        Operation::Unwatch(_) => OperationKind::Unwatch,
        Operation::Tap(_) => OperationKind::Tap,
        Operation::Untap(_) => OperationKind::Untap,
    }
}

/// A plane's reply with the request's trace.
#[derive(Debug, PartialEq, Eq)]
pub struct PipelineReply {
    reply: SpiritReply,
    trace: ActorTrace,
}

impl PipelineReply {
    pub closed spec fn spec_reply(&self) -> SpiritReply {
        self.reply
    }

    pub closed spec fn spec_trace(&self) -> ActorTrace {
        self.trace
    }

    pub fn new(reply: SpiritReply, trace: ActorTrace) -> (pipeline: Self)
        ensures
            pipeline.spec_reply() == reply,
            pipeline.spec_trace() == trace,
    {
        PipelineReply { reply, trace }
    }

    pub fn reply(&self) -> (reply: &SpiritReply)
        ensures
            *reply == self.spec_reply(),
    {
        &self.reply
    }

    pub fn trace(&self) -> (trace: &ActorTrace)
        ensures
            *trace == self.spec_trace(),
    {
        &self.trace
    }

    pub fn into_parts(self) -> (parts: (SpiritReply, ActorTrace))
        ensures
            parts == (self.spec_reply(), self.spec_trace()),
    {
        (self.reply, self.trace)
    }
}

} // verus!
