//! Commands and effects of the ordinary channel, and their projection to
//! the universal observation labels: what kind of operation a command is,
//! and what its effect did.

use vstd::prelude::*;

use crate::actors::classifier::Statement;
use crate::actors::vocabulary::{
    Observation, ObserverFilter, ObserverSubscriptionToken, Operation, OperationKind,
    PrivacyScopedRecordSubscription, QuestionSummary, RecordSubscription,
    RecordSubscriptionToken, SpiritReply, State, StateSubscriptionToken, Subscription,
    SubscriptionSnapshot, SubscriptionToken, UnimplementedReason,
};
use crate::catalog::TopicsObserved;
use crate::record::{Entry, Magnitude, MagnitudeSelection, RecordQuery};
use crate::store::{
    CertaintyChange, CertaintyChanged, RecordAccepted, RecordChange, RecordIdentifier,
    RecordMutationApplied,
    RecordIdentifierObservation, RecordObservation, RecordProvenance, RecordRemoved,
    RecordSummary, RemovalCandidateCollection, RemovalCandidatesCollected,
};
use vstd::std_specs::convert::FromSpecImpl;

verus! {

/// A record subscription with the privacy levels its snapshot and its
/// stream may see.
#[derive(Debug, PartialEq, Eq)]
pub struct RecordSubscriptionObservation {
    pub subscription: RecordSubscription,
    pub privacy_selection: MagnitudeSelection,
}

impl RecordSubscriptionObservation {
    /// A public subscription: sees exact-`Zero` privacy only.
    pub fn public(subscription: RecordSubscription) -> (observation: Self)
        ensures
            observation == (RecordSubscriptionObservation {
                subscription,
                privacy_selection: MagnitudeSelection::Exact(Magnitude::Zero),
            }),
    {
        RecordSubscriptionObservation {
            subscription,
            privacy_selection: MagnitudeSelection::default_observation_privacy(),
        }
    }

    /// A subscription with the privacy levels its request names.
    pub fn private(subscription: PrivacyScopedRecordSubscription) -> (observation: Self)
        ensures
            observation == (RecordSubscriptionObservation {
                subscription: subscription.record_subscription,
                privacy_selection: subscription.privacy_selection,
            }),
    {
        RecordSubscriptionObservation {
            subscription: subscription.record_subscription,
            privacy_selection: subscription.privacy_selection,
        }
    }
}

/// What the daemon is asked to do, once the request is read.
#[derive(Debug, PartialEq, Eq)]
pub enum Command {
    ClassifyStatement(Statement),
    AssertEntry(Entry),
    RemoveRecord(RecordIdentifier),
    ChangeCertainty(CertaintyChange),
    ChangeRecord(RecordChange),
    CollectRemovalCandidates(RemovalCandidateCollection),
    ReadRecords(RecordObservation),
    ReadRecordIdentifiers(RecordIdentifierObservation),
    ReadTopics,
    ReadState,
    ReadQuestions,
    OpenStateSubscription,
    OpenRecordSubscription(RecordSubscriptionObservation),
    CloseStateSubscription(StateSubscriptionToken),
    CloseRecordSubscription(RecordSubscriptionToken),
    OpenObserverSubscription(ObserverFilter),
    CloseObserverSubscription(ObserverSubscriptionToken),
}

/// What a command did, as its reply reports it.
#[derive(Debug, PartialEq, Eq)]
pub enum Effect {
    RecordAccepted(RecordAccepted),
    RecordRemoved(RecordRemoved),
    CertaintyChanged(CertaintyChanged),
    RecordMutationApplied(RecordMutationApplied),
    RemovalCandidatesCollected(RemovalCandidatesCollected),
    StateObserved(State),
    RecordsObserved(Vec<RecordSummary>),
    RecordProvenancesObserved(Vec<RecordProvenance>),
    TopicsObserved(TopicsObserved),
    QuestionsObserved(Vec<QuestionSummary>),
    SubscriptionOpened { token: SubscriptionToken, snapshot: SubscriptionSnapshot },
    SubscriptionRetracted { token: SubscriptionToken },
    ObserverSubscriptionOpened(ObserverSubscriptionToken),
    RequestUnimplemented(UnimplementedReason),
}

/// What an effect did to the records, as the observer event reports it.
#[derive(Debug, Clone, Copy, PartialEq, Eq, Structural)]
pub enum EffectOutcome {
    RecordCaptured,
    RecordRemoved,
    CertaintyChanged,
    RecordChanged,
    RemovalCandidatesCollected,
    Observed,
    StreamOpened,
    StreamClosed,
    NoChange,
}

/// The universal label of what a command asks of the records.
#[derive(Debug, Clone, Copy, PartialEq, Eq, Structural)]
pub enum SemaOperation {
    Assert,
    Mutate,
    Retract,
    Match,
    Subscribe,
}

/// The universal label of what an effect did to the records.
#[derive(Debug, Clone, Copy, PartialEq, Eq, Structural)]
pub enum SemaOutcome {
    Asserted,
    Mutated,
    Retracted,
    Matched,
    Subscribed,
    NoChange,
}

/// One projected observation: the operation's label and the outcome's.
#[derive(Debug, Clone, Copy, PartialEq, Eq, Structural)]
pub struct SemaObservation {
    pub operation: SemaOperation,
    pub outcome: SemaOutcome,
}

impl SemaObservation {
    pub fn new(operation: SemaOperation, outcome: SemaOutcome) -> (observation: Self)
        ensures
            observation == (SemaObservation { operation, outcome }),
    {
        SemaObservation { operation, outcome }
    }
}

/// The command an ordinary operation asks for. Public queries and
/// subscriptions see exact-`Zero` privacy; private ones carry their own
/// selection.
pub open spec fn command_for(request: Operation) -> Command {
    match request {
        Operation::State(statement) => Command::ClassifyStatement(statement),
        Operation::Record(entry) => Command::AssertEntry(entry),
        Operation::Remove(identifier) => Command::RemoveRecord(identifier),
        Operation::ChangeCertainty(change) => Command::ChangeCertainty(change),
        Operation::ChangeRecord(change) => Command::ChangeRecord(change),
        Operation::CollectRemovalCandidates(collection) => Command::CollectRemovalCandidates(
            collection,
        ),
        Operation::Observe(Observation::Records(query)) => Command::ReadRecords(
            RecordObservation {
                query: RecordQuery {
                    topic_selection: query.topic_selection,
                    kind: query.kind,
                    certainty_selection: query.certainty_selection,
                    recorded_time_selection: query.recorded_time_selection,
                    privacy_selection: MagnitudeSelection::Exact(Magnitude::Zero),
                    mode: query.mode,
                },
            },
        ),
        Operation::Observe(Observation::PrivateRecords(query)) => Command::ReadRecords(
            RecordObservation { query },
        ),
        Operation::Observe(Observation::RecordIdentifiers(query)) => Command::ReadRecordIdentifiers(
            RecordIdentifierObservation {
                query,
                privacy_selection: MagnitudeSelection::Exact(Magnitude::Zero),
            },
        ),
        Operation::Observe(Observation::PrivateRecordIdentifiers(query)) => Command::ReadRecordIdentifiers(
            RecordIdentifierObservation {
                query: query.record_identifier_query,
                privacy_selection: query.privacy_selection,
            },
        ),
        Operation::Observe(Observation::Topics) => Command::ReadTopics,
        Operation::Observe(Observation::State) => Command::ReadState,
        Operation::Observe(Observation::Questions) => Command::ReadQuestions,
        Operation::Watch(Subscription::State) => Command::OpenStateSubscription,
        Operation::Watch(Subscription::Records(subscription)) => Command::OpenRecordSubscription(
            RecordSubscriptionObservation {
                subscription,
                privacy_selection: MagnitudeSelection::Exact(Magnitude::Zero),
            },
        ),
        Operation::Watch(Subscription::PrivateRecords(subscription)) => Command::OpenRecordSubscription(
            RecordSubscriptionObservation {
                subscription: subscription.record_subscription,
                privacy_selection: subscription.privacy_selection,
            },
        ),
        Operation::Unwatch(SubscriptionToken::State(token)) => Command::CloseStateSubscription(
            token,
        ),
        Operation::Unwatch(SubscriptionToken::Records(token)) => Command::CloseRecordSubscription(
            token,
        ),
        Operation::Tap(filter) => Command::OpenObserverSubscription(filter),
        Operation::Untap(token) => Command::CloseObserverSubscription(token),
    }
}

/// The operation kind a command belongs to.
pub open spec fn command_kind(command: Command) -> OperationKind {
    match command {
        Command::ClassifyStatement(_) => OperationKind::State,
        Command::AssertEntry(_) => OperationKind::Record,
        Command::RemoveRecord(_) => OperationKind::Remove,
        Command::ChangeCertainty(_) => OperationKind::ChangeCertainty,
        Command::ChangeRecord(_) => OperationKind::ChangeRecord,
        Command::CollectRemovalCandidates(_) => OperationKind::CollectRemovalCandidates,
        Command::ReadRecords(_)
        | Command::ReadRecordIdentifiers(_)
        | Command::ReadTopics
        | Command::ReadState
        | Command::ReadQuestions => OperationKind::Observe,
        Command::OpenStateSubscription | Command::OpenRecordSubscription(_) => OperationKind::Watch,
        Command::CloseStateSubscription(_) | Command::CloseRecordSubscription(_) => {
            OperationKind::Unwatch
        },
        Command::OpenObserverSubscription(_) => OperationKind::Tap,
        Command::CloseObserverSubscription(_) => OperationKind::Untap,
    }
}

/// The universal label of a command.
pub open spec fn sema_operation_of(command: Command) -> SemaOperation {
    match command {
        Command::ClassifyStatement(_) | Command::AssertEntry(_) => SemaOperation::Assert,
        Command::ChangeCertainty(_) => SemaOperation::Mutate,
        Command::ChangeRecord(_) => SemaOperation::Mutate,
        Command::RemoveRecord(_) | Command::CollectRemovalCandidates(_) => SemaOperation::Retract,
        Command::ReadRecords(_)
        | Command::ReadRecordIdentifiers(_)
        | Command::ReadTopics
        | Command::ReadState
        | Command::ReadQuestions => SemaOperation::Match,
        Command::OpenStateSubscription
        | Command::OpenRecordSubscription(_)
        | Command::OpenObserverSubscription(_) => SemaOperation::Subscribe,
        Command::CloseStateSubscription(_)
        | Command::CloseRecordSubscription(_)
        | Command::CloseObserverSubscription(_) => SemaOperation::Retract,
    }
}

/// The effect a reply reports: the variant of the same name, with its
/// payload.
pub open spec fn effect_of(reply: SpiritReply) -> Effect {
    match reply {
        SpiritReply::RecordAccepted(payload) => Effect::RecordAccepted(payload),
        SpiritReply::RecordRemoved(payload) => Effect::RecordRemoved(payload),
        SpiritReply::CertaintyChanged(payload) => Effect::CertaintyChanged(payload),
        SpiritReply::RecordMutationApplied(payload) => Effect::RecordMutationApplied(payload),
        SpiritReply::RemovalCandidatesCollected(payload) => Effect::RemovalCandidatesCollected(
            payload,
        ),
        SpiritReply::StateObserved(payload) => Effect::StateObserved(payload),
        SpiritReply::RecordsObserved(payload) => Effect::RecordsObserved(payload),
        SpiritReply::RecordProvenancesObserved(payload) => Effect::RecordProvenancesObserved(
            payload,
        ),
        SpiritReply::TopicsObserved(payload) => Effect::TopicsObserved(payload),
        SpiritReply::QuestionsObserved(payload) => Effect::QuestionsObserved(payload),
        SpiritReply::SubscriptionOpened { token, snapshot } => Effect::SubscriptionOpened {
            token,
            snapshot,
        },
        SpiritReply::SubscriptionRetracted { token } => Effect::SubscriptionRetracted { token },
        SpiritReply::ObserverSubscriptionOpened(payload) => Effect::ObserverSubscriptionOpened(
            payload,
        ),
        SpiritReply::RequestUnimplemented(payload) => Effect::RequestUnimplemented(payload),
    }
}

/// The reply an effect answers with: the variant of the same name, with
/// its payload.
pub open spec fn reply_of(effect: Effect) -> SpiritReply {
    match effect {
        Effect::RecordAccepted(payload) => SpiritReply::RecordAccepted(payload),
        Effect::RecordRemoved(payload) => SpiritReply::RecordRemoved(payload),
        Effect::CertaintyChanged(payload) => SpiritReply::CertaintyChanged(payload),
        Effect::RecordMutationApplied(payload) => SpiritReply::RecordMutationApplied(payload),
        Effect::RemovalCandidatesCollected(payload) => SpiritReply::RemovalCandidatesCollected(
            payload,
        ),
        Effect::StateObserved(payload) => SpiritReply::StateObserved(payload),
        Effect::RecordsObserved(payload) => SpiritReply::RecordsObserved(payload),
        Effect::RecordProvenancesObserved(payload) => SpiritReply::RecordProvenancesObserved(
            payload,
        ),
        Effect::TopicsObserved(payload) => SpiritReply::TopicsObserved(payload),
        Effect::QuestionsObserved(payload) => SpiritReply::QuestionsObserved(payload),
        Effect::SubscriptionOpened { token, snapshot } => SpiritReply::SubscriptionOpened {
            token,
            snapshot,
        },
        Effect::SubscriptionRetracted { token } => SpiritReply::SubscriptionRetracted { token },
        Effect::ObserverSubscriptionOpened(payload) => SpiritReply::ObserverSubscriptionOpened(
            payload,
        ),
        Effect::RequestUnimplemented(payload) => SpiritReply::RequestUnimplemented(payload),
    }
}

/// What an effect did, for the observer event.
pub open spec fn effect_outcome_of(effect: Effect) -> EffectOutcome {
    match effect {
        Effect::RecordAccepted(_) => EffectOutcome::RecordCaptured,
        Effect::RecordRemoved(_) => EffectOutcome::RecordRemoved,
        Effect::CertaintyChanged(_) => EffectOutcome::CertaintyChanged,
        Effect::RecordMutationApplied(_) => EffectOutcome::RecordChanged,
        Effect::RemovalCandidatesCollected(_) => EffectOutcome::RemovalCandidatesCollected,
        Effect::StateObserved(_)
        | Effect::RecordsObserved(_)
        | Effect::RecordProvenancesObserved(_)
        | Effect::TopicsObserved(_)
        | Effect::QuestionsObserved(_) => EffectOutcome::Observed,
        Effect::SubscriptionOpened { .. } | Effect::ObserverSubscriptionOpened(_) => {
            EffectOutcome::StreamOpened
        },
        Effect::SubscriptionRetracted { .. } => EffectOutcome::StreamClosed,
        Effect::RequestUnimplemented(_) => EffectOutcome::NoChange,
    }
}

/// The universal label of an effect.
pub open spec fn sema_outcome_of(effect: Effect) -> SemaOutcome {
    match effect {
        Effect::RecordAccepted(_) => SemaOutcome::Asserted,
        Effect::CertaintyChanged(_) => SemaOutcome::Mutated,
        Effect::RecordMutationApplied(_) => SemaOutcome::Mutated,
        Effect::RecordRemoved(_) | Effect::RemovalCandidatesCollected(_) => SemaOutcome::Retracted,
        Effect::StateObserved(_)
        | Effect::RecordsObserved(_)
        | Effect::RecordProvenancesObserved(_)
        | Effect::TopicsObserved(_)
        | Effect::QuestionsObserved(_) => SemaOutcome::Matched,
        Effect::SubscriptionOpened { .. } | Effect::ObserverSubscriptionOpened(_) => {
            SemaOutcome::Subscribed
        },
        Effect::SubscriptionRetracted { .. } => SemaOutcome::Retracted,
        Effect::RequestUnimplemented(_) => SemaOutcome::NoChange,
    }
}

impl Command {
    /// The operation kind this command belongs to.
    pub fn operation_kind(&self) -> (kind: OperationKind)
        ensures
            kind == command_kind(*self),
    {
        match self {
            Command::ClassifyStatement(_) => OperationKind::State,
            Command::AssertEntry(_) => OperationKind::Record,
            Command::RemoveRecord(_) => OperationKind::Remove,
            Command::ChangeCertainty(_) => OperationKind::ChangeCertainty,
            Command::ChangeRecord(_) => OperationKind::ChangeRecord,
            Command::CollectRemovalCandidates(_) => OperationKind::CollectRemovalCandidates,
            Command::ReadRecords(_)
            | Command::ReadRecordIdentifiers(_)
            | Command::ReadTopics
            | Command::ReadState
            | Command::ReadQuestions => OperationKind::Observe,
            Command::OpenStateSubscription | Command::OpenRecordSubscription(_) => {
                OperationKind::Watch
            },
            Command::CloseStateSubscription(_) | Command::CloseRecordSubscription(_) => {
                OperationKind::Unwatch
            },
            Command::OpenObserverSubscription(_) => OperationKind::Tap,
            Command::CloseObserverSubscription(_) => OperationKind::Untap,
        }
    }

    /// The command an ordinary operation asks for; every operation asks
    /// for one.
    pub fn from_request(request: Operation) -> (command: Option<Command>)
        ensures
            command == Some(command_for(request)),
    {
        let command = match request {
            Operation::State(statement) => Command::ClassifyStatement(statement),
            Operation::Record(entry) => Command::AssertEntry(entry),
            Operation::Remove(identifier) => Command::RemoveRecord(identifier),
            Operation::ChangeCertainty(change) => Command::ChangeCertainty(change),
            Operation::ChangeRecord(change) => Command::ChangeRecord(change),
            Operation::CollectRemovalCandidates(collection) => Command::CollectRemovalCandidates(
                collection,
            ),
            Operation::Observe(observation) => match observation {
                Observation::Records(query) => Command::ReadRecords(
                    RecordObservation { query: query.into_record_query() },
                ),
                Observation::PrivateRecords(query) => Command::ReadRecords(
                    RecordObservation { query },
                ),
                Observation::RecordIdentifiers(query) => Command::ReadRecordIdentifiers(
                    RecordIdentifierObservation::public(query),
                ),
                Observation::PrivateRecordIdentifiers(query) => Command::ReadRecordIdentifiers(
                    RecordIdentifierObservation::private(query),
                ),
                Observation::Topics => Command::ReadTopics,
                Observation::State => Command::ReadState,
                Observation::Questions => Command::ReadQuestions,
            },
            Operation::Watch(subscription) => match subscription {
                Subscription::State => Command::OpenStateSubscription,
                Subscription::Records(subscription) => Command::OpenRecordSubscription(
                    RecordSubscriptionObservation::public(subscription),
                ),
                Subscription::PrivateRecords(subscription) => Command::OpenRecordSubscription(
                    RecordSubscriptionObservation::private(subscription),
                ),
            },
            Operation::Unwatch(token) => match token {
                SubscriptionToken::State(token) => Command::CloseStateSubscription(token),
                SubscriptionToken::Records(token) => Command::CloseRecordSubscription(token),
            },
            Operation::Tap(filter) => Command::OpenObserverSubscription(filter),
            Operation::Untap(token) => Command::CloseObserverSubscription(token),
        };
        Some(command)
    }

    /// The universal label of this command.
    pub fn to_sema_operation(&self) -> (operation: SemaOperation)
        ensures
            operation == sema_operation_of(*self),
    {
        match self {
            Command::ClassifyStatement(_) | Command::AssertEntry(_) => SemaOperation::Assert,
            Command::ChangeCertainty(_) => SemaOperation::Mutate,
            Command::ChangeRecord(_) => SemaOperation::Mutate,
            Command::RemoveRecord(_) | Command::CollectRemovalCandidates(_) => {
                SemaOperation::Retract
            },
            Command::ReadRecords(_)
            | Command::ReadRecordIdentifiers(_)
            | Command::ReadTopics
            | Command::ReadState
            | Command::ReadQuestions => SemaOperation::Match,
            Command::OpenStateSubscription
            | Command::OpenRecordSubscription(_)
            | Command::OpenObserverSubscription(_) => SemaOperation::Subscribe,
            Command::CloseStateSubscription(_)
            | Command::CloseRecordSubscription(_)
            | Command::CloseObserverSubscription(_) => SemaOperation::Retract,
        }
    }
}

impl From<RecordQuery> for Command {
    fn from(query: RecordQuery) -> (command: Self) {
        Command::ReadRecords(RecordObservation { query })
    }
}

impl FromSpecImpl<RecordQuery> for Command {
    open spec fn obeys_from_spec() -> bool {
        true
    }

    open spec fn from_spec(query: RecordQuery) -> Command {
        Command::ReadRecords(RecordObservation { query })
    }
}

impl Effect {
    /// What this effect did, for the observer event.
    pub fn outcome(&self) -> (outcome: EffectOutcome)
        ensures
            outcome == effect_outcome_of(*self),
    {
        match self {
            Effect::RecordAccepted(_) => EffectOutcome::RecordCaptured,
            Effect::RecordRemoved(_) => EffectOutcome::RecordRemoved,
            Effect::CertaintyChanged(_) => EffectOutcome::CertaintyChanged,
            Effect::RecordMutationApplied(_) => EffectOutcome::RecordChanged,
            Effect::RemovalCandidatesCollected(_) => EffectOutcome::RemovalCandidatesCollected,
            Effect::StateObserved(_)
            | Effect::RecordsObserved(_)
            | Effect::RecordProvenancesObserved(_)
            | Effect::TopicsObserved(_)
            | Effect::QuestionsObserved(_) => EffectOutcome::Observed,
            Effect::SubscriptionOpened { .. } | Effect::ObserverSubscriptionOpened(_) => {
                EffectOutcome::StreamOpened
            },
            Effect::SubscriptionRetracted { .. } => EffectOutcome::StreamClosed,
            Effect::RequestUnimplemented(_) => EffectOutcome::NoChange,
        }
    }

    /// The effect a reply reports.
    pub fn from_reply(reply: SpiritReply) -> (effect: Self)
        ensures
            effect == effect_of(reply),
    {
        match reply {
            SpiritReply::RecordAccepted(payload) => Effect::RecordAccepted(payload),
            SpiritReply::RecordRemoved(payload) => Effect::RecordRemoved(payload),
            SpiritReply::CertaintyChanged(payload) => Effect::CertaintyChanged(payload),
            SpiritReply::RecordMutationApplied(payload) => Effect::RecordMutationApplied(payload),
            SpiritReply::RemovalCandidatesCollected(payload) => {
                Effect::RemovalCandidatesCollected(payload)
            },
            SpiritReply::StateObserved(payload) => Effect::StateObserved(payload),
            SpiritReply::RecordsObserved(payload) => Effect::RecordsObserved(payload),
            SpiritReply::RecordProvenancesObserved(payload) => {
                Effect::RecordProvenancesObserved(payload)
            },
            SpiritReply::TopicsObserved(payload) => Effect::TopicsObserved(payload),
            SpiritReply::QuestionsObserved(payload) => Effect::QuestionsObserved(payload),
            SpiritReply::SubscriptionOpened { token, snapshot } => Effect::SubscriptionOpened {
                token,
                snapshot,
            },
            SpiritReply::SubscriptionRetracted { token } => Effect::SubscriptionRetracted {
                token,
            },
            SpiritReply::ObserverSubscriptionOpened(payload) => {
                Effect::ObserverSubscriptionOpened(payload)
            },
            SpiritReply::RequestUnimplemented(payload) => Effect::RequestUnimplemented(payload),
        }
    }

    /// The observation a command and its effect project to.
    pub fn sema_observation_for(&self, command: &Command) -> (observation: SemaObservation)
        ensures
            observation == (SemaObservation {
                operation: sema_operation_of(*command),
                outcome: sema_outcome_of(*self),
            }),
    {
        SemaObservation::new(command.to_sema_operation(), self.to_sema_outcome())
    }

    /// The reply this effect answers with.
    pub fn into_reply(self) -> (reply: SpiritReply)
        ensures
            reply == reply_of(self),
    {
        match self {
            Effect::RecordAccepted(payload) => SpiritReply::RecordAccepted(payload),
            Effect::RecordRemoved(payload) => SpiritReply::RecordRemoved(payload),
            Effect::CertaintyChanged(payload) => SpiritReply::CertaintyChanged(payload),
            Effect::RecordMutationApplied(payload) => SpiritReply::RecordMutationApplied(payload),
            Effect::RemovalCandidatesCollected(payload) => {
                SpiritReply::RemovalCandidatesCollected(payload)
            },
            Effect::StateObserved(payload) => SpiritReply::StateObserved(payload),
            Effect::RecordsObserved(payload) => SpiritReply::RecordsObserved(payload),
            Effect::RecordProvenancesObserved(payload) => {
                SpiritReply::RecordProvenancesObserved(payload)
            },
            Effect::TopicsObserved(payload) => SpiritReply::TopicsObserved(payload),
            Effect::QuestionsObserved(payload) => SpiritReply::QuestionsObserved(payload),
            Effect::SubscriptionOpened { token, snapshot } => SpiritReply::SubscriptionOpened {
                token,
                snapshot,
            },
            Effect::SubscriptionRetracted { token } => SpiritReply::SubscriptionRetracted {
                token,
            },
            Effect::ObserverSubscriptionOpened(payload) => {
                SpiritReply::ObserverSubscriptionOpened(payload)
            },
            Effect::RequestUnimplemented(payload) => SpiritReply::RequestUnimplemented(payload),
        }
    }

    /// The universal label of this effect.
    pub fn to_sema_outcome(&self) -> (outcome: SemaOutcome)
        ensures
            outcome == sema_outcome_of(*self),
    {
        match self {
            Effect::RecordAccepted(_) => SemaOutcome::Asserted,
            Effect::CertaintyChanged(_) => SemaOutcome::Mutated,
            Effect::RecordMutationApplied(_) => SemaOutcome::Mutated,
            Effect::RecordRemoved(_) | Effect::RemovalCandidatesCollected(_) => {
                SemaOutcome::Retracted
            },
            Effect::StateObserved(_)
            | Effect::RecordsObserved(_)
            | Effect::RecordProvenancesObserved(_)
            | Effect::TopicsObserved(_)
            | Effect::QuestionsObserved(_) => SemaOutcome::Matched,
            Effect::SubscriptionOpened { .. } | Effect::ObserverSubscriptionOpened(_) => {
                SemaOutcome::Subscribed
            },
            Effect::SubscriptionRetracted { .. } => SemaOutcome::Retracted,
            Effect::RequestUnimplemented(_) => SemaOutcome::NoChange,
        }
    }
}

/// A reply becomes an effect and back without change, and an effect
/// becomes a reply and back without change.
pub proof fn law_effect_reply_round_trip(reply: SpiritReply, effect: Effect)
    ensures
        reply_of(effect_of(reply)) == reply,
        effect_of(reply_of(effect)) == effect,
{
}

/// Every read command projects to `Match`, and only read commands do:
/// observing never asserts, mutates, retracts or subscribes.
pub proof fn law_reads_are_matches(command: Command)
    ensures
        (sema_operation_of(command) == SemaOperation::Match) <==> (command_kind(command)
            == OperationKind::Observe),
{
}

/// The command of an operation keeps the operation's kind.
pub proof fn law_command_keeps_operation_kind(request: Operation)
    ensures
        command_kind(command_for(request)) == crate::actors::vocabulary::operation_kind_of(
            request,
        ),
{
}

} // verus!
