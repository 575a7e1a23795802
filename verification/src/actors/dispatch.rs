//! The dispatch phase's decisions: which frames are admitted, which step
//! a command takes (a read or a write), and what a signal is answered with.
//! The planes that carry out a step run outside; each decision here takes
//! what they returned.

use vstd::prelude::*;

use crate::actors::vocabulary::{Operation, OperationKind, SpiritReply, UnimplementedReason};
use crate::error::{
    RequestRejectionReason, BatchFailureReason, CommitStatus, Error, RetryClassification, is_engine_fault,
    may_have_committed,
};
use crate::actors::classifier::{ClassifierPlane, ClassifyStatement, Statement};
use crate::actors::record_store::RecordStore;
use crate::actors::reply::{ReplyShaper, ShapeUnimplemented};
use crate::actors::state::{
    ObserveQuestions, ObserveState, ReadStateSnapshot, StatePlane, question_views,
};
use crate::actors::subscription::{
    OpenRecordSubscription, OpenStateSubscription, RetractRecordSubscription,
    RetractStateSubscription, SubscriptionPlane,
};
use crate::actors::vocabulary::{SubscriptionSnapshot, SubscriptionToken};
use crate::catalog::{catalog_records, count_views, is_catalog, topic_total};
use crate::clock::{ClockPlane, reading_at, shifted_seconds};
use crate::record::{EntryView, Magnitude, MagnitudeSelection, RecordedTime};
use crate::store::{
    ObservedRecords, RecordObservation, RecordRemoved, SpiritStore, StoredRecordView,
    certainty_outcome, collection_outcome, identifier_result, record_change_outcome, query_result, shows_records,
    summaries_of, summary_views, topic_records, topics_valid, without_identifier,
};
use crate::observation::{
    Command, Effect, RecordSubscriptionObservation, SemaOperation, command_for, command_kind, effect_of, reply_of,
    sema_operation_of,
};
use crate::trace::{ActorTrace, TraceAction, TraceNode};
use crate::handover::{HandoverMarker, HandoverState, UpgradeController};

verus! {

/// A command and the effect it had.
#[derive(Debug, PartialEq, Eq)]
pub struct SpiritCommandEffect {
    pub command: Command,
    pub effect: Effect,
}

/// What a read or write step produced: the command's effect, or a
/// rejection whose error the engines keep.
#[derive(Debug, PartialEq, Eq)]
pub enum SpiritSemaOutput {
    Completed(SpiritCommandEffect),
    Rejected,
}

/// The work the runner hands to the decisions: a signal that arrived, or
/// a step that completed.
#[derive(Debug, PartialEq, Eq)]
pub enum SpiritNexusWork {
    SignalArrived(Operation),
    SemaCompleted(SpiritSemaOutput),
}

/// What the decisions ask for next.
#[derive(Debug, PartialEq, Eq)]
pub enum SpiritNexusAction {
    CommandSemaWrite(Command),
    CommandSemaRead(Command),
    ReplyToSignal(SpiritReply),
}

/// The runner's next step: a write, a read, or the reply.
#[derive(Debug, PartialEq, Eq)]
pub enum NextStep {
    SemaWrite(Command),
    SemaRead(Command),
    Reply(SpiritReply),
}

/// The answer to a signal the engines could not serve.
pub open spec fn unimplemented_reply() -> SpiritReply {
    SpiritReply::RequestUnimplemented(UnimplementedReason::IntegrationNotLanded)
}

/// The step a command takes: reads to the read side, everything else to
/// the write side.
pub open spec fn action_for(command: Command) -> SpiritNexusAction {
    if sema_operation_of(command) == SemaOperation::Match {
        SpiritNexusAction::CommandSemaRead(command)
    } else {
        SpiritNexusAction::CommandSemaWrite(command)
    }
}

/// What the decisions ask for after `work`.
pub open spec fn next_action(work: SpiritNexusWork) -> SpiritNexusAction {
    match work {
        SpiritNexusWork::SignalArrived(operation) => action_for(command_for(operation)),
        SpiritNexusWork::SemaCompleted(SpiritSemaOutput::Completed(done)) => {
            SpiritNexusAction::ReplyToSignal(reply_of(done.effect))
        },
        SpiritNexusWork::SemaCompleted(SpiritSemaOutput::Rejected) => {
            SpiritNexusAction::ReplyToSignal(unimplemented_reply())
        },
    }
}

/// The trace event a decision on `work` records, if any.
pub open spec fn decision_event(work: SpiritNexusWork) -> Option<(Seq<char>, TraceAction)> {
    match work {
        SpiritNexusWork::SignalArrived(_) => Some(("SignalExecutor"@, TraceAction::OperationReceived)),
        SpiritNexusWork::SemaCompleted(SpiritSemaOutput::Completed(_)) => Some(
            ("SemaObserver"@, TraceAction::ObservationProjected),
        ),
        SpiritNexusWork::SemaCompleted(SpiritSemaOutput::Rejected) => None,
    }
}

/// The runner step an action stands for.
pub open spec fn step_of(action: SpiritNexusAction) -> NextStep {
    match action {
        SpiritNexusAction::CommandSemaWrite(command) => NextStep::SemaWrite(command),
        SpiritNexusAction::CommandSemaRead(command) => NextStep::SemaRead(command),
        SpiritNexusAction::ReplyToSignal(reply) => NextStep::Reply(reply),
    }
}

/// The output of a step on `command` whose planes returned `outcome`.
pub open spec fn completion_of(command: Command, outcome: Result<SpiritReply, Error>) -> SpiritSemaOutput {
    match outcome {
        Ok(reply) => SpiritSemaOutput::Completed(
            SpiritCommandEffect { command, effect: effect_of(reply) },
        ),
        Err(_) => SpiritSemaOutput::Rejected,
    }
}

impl SpiritNexusAction {
    pub fn into_next_step(self) -> (step: NextStep)
        ensures
            step == step_of(self),
    {
        match self {
            SpiritNexusAction::CommandSemaWrite(command) => NextStep::SemaWrite(command),
            SpiritNexusAction::CommandSemaRead(command) => NextStep::SemaRead(command),
            SpiritNexusAction::ReplyToSignal(reply) => NextStep::Reply(reply),
        }
    }
}

/// The decision state of one signal's run: its trace and the error of a
/// rejected step, if one was rejected.
pub struct SpiritRuntimeEngines {
    trace: ActorTrace,
    last_error: Option<Error>,
}

impl SpiritRuntimeEngines {
    pub closed spec fn spec_trace(&self) -> ActorTrace {
        self.trace
    }

    pub closed spec fn spec_last_error(&self) -> Option<Error> {
        self.last_error
    }

    pub fn new(trace: ActorTrace) -> (engines: Self)
        ensures
            engines.spec_trace() == trace,
            engines.spec_last_error() is None,
    {
        SpiritRuntimeEngines { trace, last_error: None }
    }

    pub fn trace(&self) -> (trace: &ActorTrace)
        ensures
            *trace == self.spec_trace(),
    {
        &self.trace
    }

    /// The error of the rejected step, which is cleared.
    pub fn take_last_error(&mut self) -> (error: Option<Error>)
        ensures
            error == old(self).spec_last_error(),
            final(self).spec_last_error() is None,
            final(self).spec_trace() == old(self).spec_trace(),
    {
        let error = self.last_error.take();
        error
    }

    /// The step a command takes.
    pub fn action_for_command(command: Command) -> (action: SpiritNexusAction)
        ensures
            action == action_for(command),
    {
        match command.to_sema_operation() {
            SemaOperation::Match => SpiritNexusAction::CommandSemaRead(command),
            _ => SpiritNexusAction::CommandSemaWrite(command),
        }
    }

    /// The answer to a signal the engines could not serve.
    pub fn unimplemented_reply_for_engine_failure() -> (reply: SpiritReply)
        ensures
            reply == unimplemented_reply(),
    {
        SpiritReply::RequestUnimplemented(UnimplementedReason::IntegrationNotLanded)
    }

    /// The reply when the runner's step budget ran out.
    pub fn budget_exhausted_reply(&self) -> (reply: SpiritReply)
        ensures
            reply == unimplemented_reply(),
    {
        Self::unimplemented_reply_for_engine_failure()
    }

    /// The step for a signal that arrived: the command it asks for, on its
    /// side; the signal executor notes it.
    pub fn action_for_signal(&mut self, operation: Operation) -> (action: SpiritNexusAction)
        ensures
            action == action_for(command_for(operation)),
            final(self).spec_trace()@ == old(self).spec_trace()@.push(
                ("SignalExecutor"@, TraceAction::OperationReceived),
            ),
            final(self).spec_last_error() == old(self).spec_last_error(),
    {
        let command = Command::from_request(operation);
        match command {
            Some(command) => {
                self.trace.record(TraceNode::signal_executor(), TraceAction::OperationReceived);
                Self::action_for_command(command)
            },
            None => SpiritNexusAction::ReplyToSignal(Self::unimplemented_reply_for_engine_failure()),
        }
    }

    /// The answer once a step completed: the effect's reply, projected by
    /// the observer; or, for a rejected step, the unimplemented reply.
    pub fn action_for_sema_output(&mut self, output: SpiritSemaOutput) -> (action: SpiritNexusAction)
        ensures
            action == next_action(SpiritNexusWork::SemaCompleted(output)),
            final(self).spec_trace()@ == match decision_event(SpiritNexusWork::SemaCompleted(output)) {
                Some(event) => old(self).spec_trace()@.push(event),
                None => old(self).spec_trace()@,
            },
            final(self).spec_last_error() == old(self).spec_last_error(),
    {
        match output {
            SpiritSemaOutput::Completed(done) => {
                self.trace.record(TraceNode::sema_observer(), TraceAction::ObservationProjected);
                SpiritNexusAction::ReplyToSignal(done.effect.into_reply())
            },
            SpiritSemaOutput::Rejected => SpiritNexusAction::ReplyToSignal(
                Self::unimplemented_reply_for_engine_failure(),
            ),
        }
    }

    /// The next step after `work`.
    pub fn decide_next_step(&mut self, work: SpiritNexusWork) -> (step: NextStep)
        ensures
            step == step_of(next_action(work)),
            final(self).spec_trace()@ == match decision_event(work) {
                Some(event) => old(self).spec_trace()@.push(event),
                None => old(self).spec_trace()@,
            },
            final(self).spec_last_error() == old(self).spec_last_error(),
    {
        let action = match work {
            SpiritNexusWork::SignalArrived(operation) => self.action_for_signal(operation),
            SpiritNexusWork::SemaCompleted(output) => self.action_for_sema_output(output),
        };
        action.into_next_step()
    }

    /// The work a finished step hands back: the command's effect when the
    /// planes answered, or a rejection whose error is kept.
    pub fn complete_command(
        &mut self,
        command: Command,
        outcome: Result<SpiritReply, Error>,
    ) -> (work: SpiritNexusWork)
        ensures
            work == SpiritNexusWork::SemaCompleted(completion_of(command, outcome)),
            final(self).spec_last_error() == match outcome {
                Ok(_) => old(self).spec_last_error(),
                Err(error) => Some(error),
            },
            final(self).spec_trace() == old(self).spec_trace(),
    {
        let output = match outcome {
            Ok(reply) => SpiritSemaOutput::Completed(
                SpiritCommandEffect { command, effect: Effect::from_reply(reply) },
            ),
            Err(error) => {
                self.last_error = Some(error);
                SpiritSemaOutput::Rejected
            },
        };
        SpiritNexusWork::SemaCompleted(output)
    }
}

/// One plane a command visits as it is carried out.
#[derive(Debug, Clone, Copy, PartialEq, Eq, Structural)]
pub enum PlaneStep {
    Classifier,
    Clock,
    RecordStoreWrite,
    RecordStoreRead,
    StatePlane,
    SubscriptionPlane,
    ReplyShaper,
}

/// The planes a command visits, in order: a statement is classified,
/// stamped and stored; an entry is stamped and stored; the other record
/// changes go to the store's writer and record reads to its reader; state
/// and questions come from the state plane; a subscription takes its
/// snapshot before the subscription plane opens it; a retraction goes to
/// the subscription plane alone; observer taps are shaped as unimplemented
/// replies.
pub open spec fn plan_for(command: Command) -> Seq<PlaneStep> {
    match command {
        Command::ClassifyStatement(_) => seq![
            PlaneStep::Classifier,
            PlaneStep::Clock,
            PlaneStep::RecordStoreWrite,
        ],
        Command::AssertEntry(_) => seq![PlaneStep::Clock, PlaneStep::RecordStoreWrite],
        Command::RemoveRecord(_)
        | Command::ChangeCertainty(_)
        | Command::ChangeRecord(_)
        | Command::CollectRemovalCandidates(_) => seq![PlaneStep::RecordStoreWrite],
        Command::ReadRecords(_) | Command::ReadRecordIdentifiers(_) | Command::ReadTopics => seq![
            PlaneStep::RecordStoreRead,
        ],
        Command::ReadState | Command::ReadQuestions => seq![PlaneStep::StatePlane],
        Command::OpenStateSubscription => seq![PlaneStep::StatePlane, PlaneStep::SubscriptionPlane],
        Command::OpenRecordSubscription(_) => seq![
            PlaneStep::RecordStoreRead,
            PlaneStep::SubscriptionPlane,
        ],
        Command::CloseStateSubscription(_) | Command::CloseRecordSubscription(_) => seq![
            PlaneStep::SubscriptionPlane,
        ],
        Command::OpenObserverSubscription(_) | Command::CloseObserverSubscription(_) => seq![
            PlaneStep::ReplyShaper,
        ],
    }
}

impl SpiritRuntimeEngines {
    /// The planes `command` visits, in order.
    pub fn execution_plan(command: &Command) -> (plan: Vec<PlaneStep>)
        ensures
            plan@ == plan_for(*command),
    {
        let plan = match command {
            Command::ClassifyStatement(_) => vec![
                PlaneStep::Classifier,
                PlaneStep::Clock,
                PlaneStep::RecordStoreWrite,
            ],
            Command::AssertEntry(_) => vec![PlaneStep::Clock, PlaneStep::RecordStoreWrite],
            Command::RemoveRecord(_)
            | Command::ChangeCertainty(_)
            | Command::ChangeRecord(_)
            | Command::CollectRemovalCandidates(_) => vec![PlaneStep::RecordStoreWrite],
            Command::ReadRecords(_) | Command::ReadRecordIdentifiers(_) | Command::ReadTopics => {
                vec![PlaneStep::RecordStoreRead]
            },
            Command::ReadState | Command::ReadQuestions => vec![PlaneStep::StatePlane],
            Command::OpenStateSubscription => vec![
                PlaneStep::StatePlane,
                PlaneStep::SubscriptionPlane,
            ],
            Command::OpenRecordSubscription(_) => vec![
                PlaneStep::RecordStoreRead,
                PlaneStep::SubscriptionPlane,
            ],
            Command::CloseStateSubscription(_) | Command::CloseRecordSubscription(_) => {
                vec![PlaneStep::SubscriptionPlane]
            },
            Command::OpenObserverSubscription(_) | Command::CloseObserverSubscription(_) => {
                vec![PlaneStep::ReplyShaper]
            },
        };
        proof {
            assert(plan@ =~= plan_for(*command));
        }
        plan
    }
}

/// Observations never reach the store's writer, and only commands that
/// take the write step do.
pub proof fn law_reads_never_write(command: Command)
    ensures
        plan_for(command).contains(PlaneStep::RecordStoreWrite) ==> action_for(command) is CommandSemaWrite,
        command_kind(command) == OperationKind::Observe ==> !plan_for(command).contains(
            PlaneStep::RecordStoreWrite,
        ),
{
}

/// A raw statement is classified, then stamped, before it is stored.
pub proof fn law_statements_are_classified_before_storage(statement: Statement)
    ensures
        plan_for(Command::ClassifyStatement(statement)) == seq![
            PlaneStep::Classifier,
            PlaneStep::Clock,
            PlaneStep::RecordStoreWrite,
        ],
{
}

/// State and question observations use the state plane and never the
/// record store; observer taps touch nothing but the reply shaper.
pub proof fn law_state_reads_and_taps_leave_the_store_alone(command: Command)
    ensures
        (command is ReadState || command is ReadQuestions) ==> plan_for(command) == seq![
            PlaneStep::StatePlane,
        ],
        (command is OpenObserverSubscription || command is CloseObserverSubscription)
            ==> plan_for(command) == seq![PlaneStep::ReplyShaper],
{
}

/// A subscription takes its snapshot, from the state plane or the store's
/// reader, before the subscription plane opens it.
pub proof fn law_subscriptions_snapshot_first(command: Command)
    ensures
        command is OpenStateSubscription ==> plan_for(command) == seq![
            PlaneStep::StatePlane,
            PlaneStep::SubscriptionPlane,
        ],
        command is OpenRecordSubscription ==> plan_for(command) == seq![
            PlaneStep::RecordStoreRead,
            PlaneStep::SubscriptionPlane,
        ],
{
}

/// The planes that carry out commands.
pub struct SpiritPlanes {
    pub classifier: ClassifierPlane,
    pub clock: ClockPlane,
    pub store: RecordStore,
    pub state: StatePlane,
    pub subscription: SubscriptionPlane,
    pub reply: ReplyShaper,
}

impl SpiritPlanes {
    pub open spec fn wf(&self) -> bool {
        &&& self.store.wf()
        &&& self.subscription.wf()
    }
}

/// The moment the clock plane stamps an entry with when the system clock
/// shows `now_unix_seconds`.
pub open spec fn stamp_moment(clock: ClockPlane, now_unix_seconds: i64) -> RecordedTime {
    RecordedTime {
        date: reading_at(shifted_seconds(now_unix_seconds, clock.source().offset_seconds)).date,
        time: reading_at(shifted_seconds(now_unix_seconds, clock.source().offset_seconds)).time,
    }
}

/// The provisional entry the classifier makes of a statement.
pub open spec fn classified_entry(classifier: ClassifierPlane, statement: Statement) -> EntryView {
    EntryView {
        topics: seq![classifier.spec_policy().spec_topic()],
        kind: classifier.spec_policy().spec_kind(),
        description: statement.text@,
        certainty: classifier.spec_policy().spec_certainty(),
        privacy: Magnitude::Zero,
    }
}

/// Whether capturing `entry` at `moment` went from `before` to `after` with
/// `effect`: the entry stored under the next identifier and acknowledged,
/// or refused with the store unchanged.
pub open spec fn capture_outcome(
    before: SpiritStore,
    after: SpiritStore,
    entry: EntryView,
    moment: RecordedTime,
    effect: Result<Effect, Error>,
) -> bool {
    match effect {
        Ok(done) => {
            &&& topics_valid(entry.topics)
            &&& done matches Effect::RecordAccepted(receipt) && receipt.identifier.value
                == before.next_identifier() && after@ == before@.push(
                StoredRecordView { id: receipt.identifier.value, entry, moment },
            )
            &&& after.next_identifier() == before.next_identifier() + 1
        },
        Err(error) => {
            &&& after@ == before@
            &&& after.commits() == before.commits()
            &&& if !topics_valid(entry.topics) {
                error is RequestRejected
            } else {
                error is SpiritStore && before.next_identifier() > u64::MAX
            }
        },
    }
}

/// The effect part of a command's outcome.
pub open spec fn effect_part(effect: Result<SpiritCommandEffect, Error>) -> Result<Effect, Error> {
    match effect {
        Ok(done) => Ok(done.effect),
        Err(error) => Err(error),
    }
}

/// What a command does to the planes and what it answers.
pub open spec fn command_outcome(
    before: SpiritPlanes,
    after: SpiritPlanes,
    command: Command,
    now_unix_seconds: i64,
    archive_written: bool,
    effect: Result<Effect, Error>,
) -> bool {
    let unchanged_subscriptions = after.subscription == before.subscription;
    let unchanged_store = after.store == before.store;
    match command {
        Command::ClassifyStatement(statement) => unchanged_subscriptions && capture_outcome(
            before.store.store(),
            after.store.store(),
            classified_entry(before.classifier, statement),
            stamp_moment(before.clock, now_unix_seconds),
            effect,
        ),
        Command::AssertEntry(entry) => unchanged_subscriptions && capture_outcome(
            before.store.store(),
            after.store.store(),
            entry@,
            stamp_moment(before.clock, now_unix_seconds),
            effect,
        ),
        Command::RemoveRecord(identifier) => {
            &&& unchanged_subscriptions
            &&& effect == Ok::<Effect, Error>(Effect::RecordRemoved(RecordRemoved { identifier }))
            &&& after.store.store()@ == without_identifier(before.store.store()@, identifier.value)
            &&& after.store.store().next_identifier() >= before.store.store().next_identifier()
        },
        Command::ChangeCertainty(change) => unchanged_subscriptions && certainty_outcome(
            before.store.store(),
            after.store.store(),
            change,
            match effect {
                Ok(Effect::CertaintyChanged(receipt)) => Ok(receipt),
                Ok(_) => Err(Error::MissingSpiritSocket),
                Err(error) => Err(error),
            },
        ),
        Command::ChangeRecord(change) => unchanged_subscriptions && record_change_outcome(
            before.store.store(),
            after.store.store(),
            change,
            match effect {
                Ok(Effect::RecordMutationApplied(receipt)) => Ok(receipt),
                Ok(_) => Err(Error::MissingSpiritSocket),
                Err(error) => Err(error),
            },
        ),
        Command::CollectRemovalCandidates(collection) => unchanged_subscriptions
            && collection_outcome(
            before.store.store(),
            after.store.store(),
            collection,
            archive_written,
            match effect {
                Ok(Effect::RemovalCandidatesCollected(receipt)) => Ok(receipt),
                Ok(_) => Err(Error::MissingSpiritSocket),
                Err(error) => Err(error),
            },
        ),
        Command::ReadRecords(observation) => {
            &&& unchanged_store && unchanged_subscriptions
            &&& match effect {
                Ok(Effect::RecordsObserved(summaries)) => shows_records(
                    ObservedRecords::RecordsObserved(summaries),
                    observation.query.mode,
                    query_result(observation.query, before.store.store()@),
                ),
                Ok(Effect::RecordProvenancesObserved(provenances)) => shows_records(
                    ObservedRecords::RecordProvenancesObserved(provenances),
                    observation.query.mode,
                    query_result(observation.query, before.store.store()@),
                ),
                _ => false,
            }
        },
        Command::ReadRecordIdentifiers(observation) => {
            &&& unchanged_store && unchanged_subscriptions
            &&& match effect {
                Ok(Effect::RecordsObserved(summaries)) => shows_records(
                    ObservedRecords::RecordsObserved(summaries),
                    observation.query.mode,
                    identifier_result(observation, before.store.store()@),
                ),
                Ok(Effect::RecordProvenancesObserved(provenances)) => shows_records(
                    ObservedRecords::RecordProvenancesObserved(provenances),
                    observation.query.mode,
                    identifier_result(observation, before.store.store()@),
                ),
                _ => false,
            }
        },
        Command::ReadTopics => {
            &&& unchanged_store && unchanged_subscriptions
            &&& effect matches Ok(Effect::TopicsObserved(observed)) && is_catalog(
                count_views(observed.topics@),
                catalog_records(before.store.store()@, MagnitudeSelection::Exact(Magnitude::Zero)),
            )
        },
        Command::ReadState => {
            &&& unchanged_store && unchanged_subscriptions
            &&& effect matches Ok(Effect::StateObserved(state)) && state@ == before.state.spec_state()
        },
        Command::ReadQuestions => {
            &&& unchanged_store && unchanged_subscriptions
            &&& effect matches Ok(Effect::QuestionsObserved(questions)) && question_views(
                questions@,
            ) == before.state.spec_questions()
        },
        Command::OpenStateSubscription => {
            let token = before.subscription.spec_identifiers().next_state;
            &&& unchanged_store
            &&& after.subscription.state_subscriptions().dom()
                == before.subscription.state_subscriptions().dom().insert(token)
            &&& after.subscription.state_subscriptions()[token]@ == before.state.spec_state()
            &&& after.subscription.record_subscriptions()
                == before.subscription.record_subscriptions()
            &&& after.subscription.spec_identifiers().next_state == token + 1
            &&& effect matches Ok(Effect::SubscriptionOpened {
                token: SubscriptionToken::State(opened),
                snapshot: SubscriptionSnapshot::State(state),
            }) && opened.identifier == token && state@ == before.state.spec_state()
        },
        Command::OpenRecordSubscription(observation) => {
            let token = before.subscription.spec_identifiers().next_record;
            &&& unchanged_store
            &&& after.subscription.record_subscriptions()
                == before.subscription.record_subscriptions().insert(
                token,
                observation.subscription,
            )
            &&& after.subscription.state_subscriptions()
                == before.subscription.state_subscriptions()
            &&& after.subscription.spec_identifiers().next_record == token + 1
            &&& effect matches Ok(Effect::SubscriptionOpened {
                token: SubscriptionToken::Records(opened),
                snapshot: SubscriptionSnapshot::Records(summaries),
            }) && opened.identifier == token && summary_views(summaries@) == summaries_of(
                topic_records(
                    match observation.subscription.topic {
                        Some(word) => Some(word@),
                        None => None,
                    },
                    observation.privacy_selection,
                    before.store.store()@,
                ),
            )
        },
        Command::CloseStateSubscription(token) => {
            &&& unchanged_store
            &&& after.subscription.state_subscriptions()
                == before.subscription.state_subscriptions().remove(token.identifier)
            &&& after.subscription.record_subscriptions()
                == before.subscription.record_subscriptions()
            &&& effect == Ok::<Effect, Error>(
                Effect::SubscriptionRetracted { token: SubscriptionToken::State(token) },
            )
        },
        Command::CloseRecordSubscription(token) => {
            &&& unchanged_store
            &&& after.subscription.record_subscriptions()
                == before.subscription.record_subscriptions().remove(token.identifier)
            &&& after.subscription.state_subscriptions()
                == before.subscription.state_subscriptions()
            &&& effect == Ok::<Effect, Error>(
                Effect::SubscriptionRetracted { token: SubscriptionToken::Records(token) },
            )
        },
        Command::OpenObserverSubscription(_) => {
            &&& unchanged_store && unchanged_subscriptions
            &&& effect == Ok::<Effect, Error>(
                Effect::RequestUnimplemented(before.reply.spec_policy().spec_reason_for(OperationKind::Tap)),
            )
        },
        Command::CloseObserverSubscription(_) => {
            &&& unchanged_store && unchanged_subscriptions
            &&& effect == Ok::<Effect, Error>(
                Effect::RequestUnimplemented(
                    before.reply.spec_policy().spec_reason_for(OperationKind::Untap),
                ),
            )
        },
    }
}

impl SpiritRuntimeEngines {
    /// Carries out `command` on the planes and reports its effect. An
    /// entry is stamped with the clock reading `now_unix_seconds`;
    /// `archive_written` tells whether the archive database took the
    /// summaries of a removal-candidate collection. Every plane a command
    /// passes notes itself in the trace.
    pub fn execute_command(
        &mut self,
        planes: &mut SpiritPlanes,
        command: Command,
        now_unix_seconds: i64,
        archive_written: bool,
    ) -> (effect: Result<SpiritCommandEffect, Error>)
        requires
            old(planes).wf(),
            command is OpenStateSubscription ==> old(planes).subscription.spec_identifiers().next_state
                < u64::MAX,
            command is OpenRecordSubscription ==> old(
                planes,
            ).subscription.spec_identifiers().next_record < u64::MAX,
            command is ReadTopics ==> topic_total(
                catalog_records(
                    old(planes).store.store()@,
                    MagnitudeSelection::Exact(Magnitude::Zero),
                ),
            ) <= u64::MAX,
        ensures
            final(planes).wf(),
            final(planes).classifier == old(planes).classifier,
            final(planes).clock == old(planes).clock,
            final(planes).state == old(planes).state,
            final(planes).reply == old(planes).reply,
            final(planes).store.store().spec_location() == old(planes).store.store().spec_location(),
            effect matches Ok(done) ==> done.command == command,
            command_outcome(
                *old(planes),
                *final(planes),
                command,
                now_unix_seconds,
                archive_written,
                effect_part(effect),
            ),
            final(self).spec_last_error() == old(self).spec_last_error(),
    {
        let trace = self.trace.snapshot();
        let reply = match &command {
            Command::ClassifyStatement(statement) => {
                let classified = planes.classifier.classify(
                    ClassifyStatement {
                        statement: Statement { text: statement.text.clone() },
                        trace,
                    },
                );
                self.trace = classified.trace.snapshot();
                let stamped = planes.clock.stamp_entry(classified.entry, classified.trace, now_unix_seconds);
                self.trace = stamped.trace.snapshot();
                planes.store.capture_entry(stamped.entry, stamped.trace)?
            },
            Command::AssertEntry(entry) => {
                let stamped = planes.clock.stamp_entry(entry.clone(), trace, now_unix_seconds);
                self.trace = stamped.trace.snapshot();
                planes.store.capture_entry(stamped.entry, stamped.trace)?
            },
            Command::RemoveRecord(identifier) => planes.store.remove_entry(*identifier, trace),
            Command::ChangeCertainty(change) => planes.store.change_certainty(*change, trace)?,
            Command::ChangeRecord(change) => planes.store.change_record(change, trace)?,
            Command::CollectRemovalCandidates(collection) => planes.store.collect_removal_candidates(
                collection,
                archive_written,
                trace,
            )?,
            Command::ReadRecords(observation) => planes.store.observe_records(observation, trace)?,
            Command::ReadRecordIdentifiers(observation) => planes.store.observe_record_identifiers(
                *observation,
                trace,
            )?,
            Command::ReadTopics => planes.store.observe_topics(trace)?,
            Command::ReadState => planes.state.observe_state(ObserveState { trace }),
            Command::ReadQuestions => planes.state.observe_questions(ObserveQuestions { trace }),
            Command::OpenStateSubscription => {
                let snapshot = planes.state.read_state_snapshot(ReadStateSnapshot { trace });
                self.trace = snapshot.trace.snapshot();
                planes.subscription.open_state(
                    OpenStateSubscription { snapshot: snapshot.state, trace: snapshot.trace },
                )
            },
            Command::OpenRecordSubscription(observation) => {
                let snapshot = planes.store.read_record_snapshot(observation, trace)?;
                self.trace = snapshot.trace.snapshot();
                planes.subscription.open_records(
                    OpenRecordSubscription {
                        subscription: observation.subscription.clone(),
                        snapshot: snapshot.records,
                        trace: snapshot.trace,
                    },
                )
            },
            Command::CloseStateSubscription(token) => planes.subscription.retract_state(
                RetractStateSubscription { token: *token, trace },
            ),
            Command::CloseRecordSubscription(token) => planes.subscription.retract_records(
                RetractRecordSubscription { token: *token, trace },
            ),
            Command::OpenObserverSubscription(_) => planes.reply.shape_unimplemented(
                ShapeUnimplemented { operation: OperationKind::Tap, trace },
            ),
            Command::CloseObserverSubscription(_) => planes.reply.shape_unimplemented(
                ShapeUnimplemented { operation: OperationKind::Untap, trace },
            ),
        };
        let (reply, trace) = reply.into_parts();
        self.trace = trace;
        Ok(SpiritCommandEffect { command, effect: Effect::from_reply(reply) })
    }
}

/// Every signal is answered after at most one read or write step: the
/// signal asks for the step of its command, and whatever the planes
/// returned for it, the completed step is answered with a reply.
pub proof fn law_signal_answered_after_one_step(
    operation: Operation,
    outcome: Result<SpiritReply, Error>,
)
    ensures
        next_action(SpiritNexusWork::SignalArrived(operation)) == SpiritNexusAction::CommandSemaRead(
            command_for(operation),
        ) || next_action(SpiritNexusWork::SignalArrived(operation))
            == SpiritNexusAction::CommandSemaWrite(command_for(operation)),
        next_action(
            SpiritNexusWork::SemaCompleted(completion_of(command_for(operation), outcome)),
        ) == SpiritNexusAction::ReplyToSignal(
            match outcome {
                Ok(reply) => reply,
                Err(_) => unimplemented_reply(),
            },
        ),
{
    match outcome {
        Ok(reply) => {
            assert(reply_of(effect_of(reply)) == reply);
        },
        Err(_) => {},
    }
}

/// Observations take the read step and every other operation the write
/// step: reading never reaches the writer.
pub proof fn law_observations_take_the_read_step(operation: Operation)
    ensures
        (next_action(SpiritNexusWork::SignalArrived(operation)) is CommandSemaRead) <==> (
        crate::actors::vocabulary::operation_kind_of(operation) == OperationKind::Observe),
{
}

/// Whether `command` changes the records: it captures an entry, changes
/// or removes a record, or collects removal candidates. Reads and the
/// opening or closing of subscriptions leave the records alone.
pub open spec fn writes_records(command: Command) -> bool {
    match command {
        Command::ClassifyStatement(_)
        | Command::AssertEntry(_)
        | Command::RemoveRecord(_)
        | Command::ChangeCertainty(_)
        | Command::ChangeRecord(_)
        | Command::CollectRemovalCandidates(_) => true,
        _ => false,
    }
}

/// Every command that can change the stored records counts as a write and
/// is held back during a handover: capturing a statement, asserting an
/// entry, removing a record, changing its certainty or its fields and
/// collecting removal candidates are all writes, and whatever any other
/// command does to the planes leaves the stored records exactly as they
/// were.
pub proof fn law_every_record_change_is_a_write(
    before: SpiritPlanes,
    after: SpiritPlanes,
    command: Command,
    now_unix_seconds: i64,
    archive_written: bool,
    effect: Result<Effect, Error>,
)
    requires
        command_outcome(before, after, command, now_unix_seconds, archive_written, effect),
    ensures
        command is ClassifyStatement || command is AssertEntry || command is RemoveRecord
            || command is ChangeCertainty || command is ChangeRecord
            || command is CollectRemovalCandidates ==> writes_records(command),
        !writes_records(command) ==> after.store.store()@ == before.store.store()@,
{
}

/// Whether public record writes are held back in `state`: from the moment
/// a successor's readiness is accepted until a recovery reopens them.
pub open spec fn writes_frozen(state: HandoverState) -> bool {
    !(state is Active)
}

/// Writes are held back from the moment a successor's readiness is
/// accepted, through the finalized handover, and open again only when the
/// controller is back to `Active`.
pub proof fn law_writes_frozen_exactly_outside_active(accepted_marker: HandoverMarker)
    ensures
        writes_frozen(HandoverState::HandoverMode { accepted_marker }),
        writes_frozen(HandoverState::PrivateUpgradeOnly),
        !writes_frozen(HandoverState::Active),
{
}

/// The refusal a frozen write gets before it reaches any plane.
pub open spec fn frozen_write_refusal() -> Error {
    Error::RequestRejected { reason: RequestRejectionReason::ReceiverInternal }
}

impl SpiritRuntimeEngines {
    /// Carries out `command` while the handover stands where `handover`
    /// holds it. Once a successor's readiness is accepted, a command that
    /// writes records is refused as receiver-internal before it reaches any
    /// plane; reads, subscriptions and, outside a handover, every command
    /// are carried out as `execute_command` does.
    pub fn execute_admitted_command(
        &mut self,
        planes: &mut SpiritPlanes,
        handover: &UpgradeController,
        command: Command,
        now_unix_seconds: i64,
        archive_written: bool,
    ) -> (effect: Result<SpiritCommandEffect, Error>)
        requires
            old(planes).wf(),
            command is OpenStateSubscription ==> old(planes).subscription.spec_identifiers().next_state
                < u64::MAX,
            command is OpenRecordSubscription ==> old(
                planes,
            ).subscription.spec_identifiers().next_record < u64::MAX,
            command is ReadTopics ==> topic_total(
                catalog_records(
                    old(planes).store.store()@,
                    MagnitudeSelection::Exact(Magnitude::Zero),
                ),
            ) <= u64::MAX,
        ensures
            final(planes).wf(),
            final(self).spec_last_error() == old(self).spec_last_error(),
            writes_frozen(handover.state()) && writes_records(command) ==> {
                &&& effect == Err::<SpiritCommandEffect, Error>(frozen_write_refusal())
                &&& *final(planes) == *old(planes)
            },
            !(writes_frozen(handover.state()) && writes_records(command)) ==> {
                &&& final(planes).classifier == old(planes).classifier
                &&& final(planes).clock == old(planes).clock
                &&& final(planes).state == old(planes).state
                &&& final(planes).reply == old(planes).reply
                &&& final(planes).store.store().spec_location() == old(
                    planes,
                ).store.store().spec_location()
                &&& effect matches Ok(done) ==> done.command == command
                &&& command_outcome(
                    *old(planes),
                    *final(planes),
                    command,
                    now_unix_seconds,
                    archive_written,
                    effect_part(effect),
                )
            },
    {
        let writes = match &command {
            Command::ClassifyStatement(_)
            | Command::AssertEntry(_)
            | Command::RemoveRecord(_)
            | Command::ChangeCertainty(_)
            | Command::ChangeRecord(_)
            | Command::CollectRemovalCandidates(_) => true,
            _ => false,
        };
        if writes && !handover.is_active() {
            return Err(Error::RequestRejected { reason: RequestRejectionReason::ReceiverInternal });
        }
        self.execute_command(planes, command, now_unix_seconds, archive_written)
    }
}


/// One frame's answer: every operation answered (committed), or the batch
/// aborted with a reason and every operation invalidated.
#[derive(Debug, PartialEq, Eq)]
pub enum SubReply {
    Answered(SpiritReply),
    Invalidated,
}

#[derive(Debug, PartialEq, Eq)]
pub enum FrameReply {
    Committed { per_operation: Vec<SubReply> },
    BatchAborted {
        reason: BatchFailureReason,
        retry: RetryClassification,
        commit: CommitStatus,
        per_operation: Vec<SubReply>,
    },
}

/// Whether `reply` aborts a batch of `operation_count` operations for
/// `error`: the error's reason, retry and commit classification, and one
/// invalidated answer per operation (at least one).
pub open spec fn aborts_batch(reply: FrameReply, error: Error, operation_count: nat) -> bool {
    &&& reply matches FrameReply::BatchAborted { reason, retry, commit, per_operation }
    &&& reason == (if is_engine_fault(error) {
        BatchFailureReason::EngineUnavailable
    } else {
        BatchFailureReason::EngineRejected
    })
    &&& retry == (if is_engine_fault(error) {
        RetryClassification::Unknown
    } else {
        RetryClassification::NotRetryable
    })
    &&& commit == (if may_have_committed(error) {
        CommitStatus::Unknown
    } else {
        CommitStatus::NotCommitted
    })
    &&& per_operation@.len() == (if operation_count == 0 {
        1
    } else {
        operation_count
    })
    &&& forall|i: int| 0 <= i < per_operation@.len() ==> #[trigger] per_operation@[i] is Invalidated
}

/// The admission and answer decisions of the dispatch phase.
pub struct DispatchPhase;

impl DispatchPhase {
    /// The aborted answer to a batch of `operation_count` operations.
    pub fn batch_aborted_reply(error: &Error, operation_count: usize) -> (reply: FrameReply)
        ensures
            aborts_batch(reply, *error, operation_count as nat),
    {
        let mut per_operation: Vec<SubReply> = Vec::new();
        per_operation.push(SubReply::Invalidated);
        let mut counted: usize = 1;
        while counted < operation_count
            invariant
                1 <= counted,
                counted <= operation_count || counted == 1,
                per_operation@.len() == counted,
                forall|i: int| 0 <= i < per_operation@.len() ==> #[trigger] per_operation@[i] is Invalidated,
            decreases operation_count - counted,
        {
            per_operation.push(SubReply::Invalidated);
            counted = counted + 1;
        }
        FrameReply::BatchAborted {
            reason: error.batch_failure_reason(),
            retry: error.retry_classification(),
            commit: error.commit_status(),
            per_operation,
        }
    }

    /// Accepts a frame of exactly one operation; a frame of any other size
    /// is answered, before anything runs, with an aborted batch. The phase
    /// notes the frame in the trace either way.
    pub fn accept_frame(operations: Vec<Operation>, trace: &mut ActorTrace) -> (admitted: Result<
        Operation,
        FrameReply,
    >)
        ensures
            final(trace)@ == old(trace)@.push(("DispatchPhase"@, TraceAction::MessageReceived)),
            operations@.len() == 1 ==> admitted == Ok::<Operation, FrameReply>(operations@[0]),
            operations@.len() != 1 ==> (admitted matches Err(reply) && aborts_batch(
                reply,
                Error::UnsupportedAtomicBatch { operation_count: operations@.len() as usize },
                operations@.len(),
            )),
    {
        trace.record(TraceNode::dispatch_phase(), TraceAction::MessageReceived);
        let operation_count = operations.len();
        if operation_count != 1 {
            let error = Error::UnsupportedAtomicBatch { operation_count };
            return Err(Self::batch_aborted_reply(&error, operation_count));
        }
        let mut operations = operations;
        let operation = operations.remove(0);
        Ok(operation)
    }

    /// The answer to an admitted operation: its reply, committed, unless a
    /// step was rejected, whose error then aborts the batch.
    pub fn frame_reply(signal_reply: SpiritReply, last_error: Option<Error>) -> (reply: FrameReply)
        ensures
            match last_error {
                Some(error) => aborts_batch(reply, error, 1),
                None => reply matches FrameReply::Committed { per_operation }
                    && per_operation@ == seq![SubReply::Answered(signal_reply)],
            },
    {
        match last_error {
            Some(error) => Self::batch_aborted_reply(&error, 1),
            None => {
                let mut per_operation: Vec<SubReply> = Vec::new();
                per_operation.push(SubReply::Answered(signal_reply));
                FrameReply::Committed { per_operation }
            },
        }
    }
}

} // verus!
