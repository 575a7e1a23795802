use persona_spirit::actors::classifier::Statement;
use persona_spirit::actors::dispatch::{
    DispatchPhase, FrameReply, NextStep, PlaneStep, SpiritNexusAction, SpiritNexusWork,
    SpiritRuntimeEngines, SubReply,
};
use persona_spirit::actors::vocabulary::{
    Observation, ObserverFilter, ObserverSubscriptionToken, Operation, OperationKind,
    PublicRecordQuery, SpiritReply, StateSubscriptionToken, Subscription, SubscriptionToken,
    UnimplementedReason,
};
use persona_spirit::error::{BatchFailureReason, CommitStatus, Error, RetryClassification};
use persona_spirit::observation::{
    Command, Effect, EffectOutcome, SemaObservation, SemaOperation, SemaOutcome,
};
use persona_spirit::record::{
    Description, Entry, Kind, Magnitude, MagnitudeSelection, ObservationMode, RecordQuery,
    RecordedTimeSelection, Topic, TopicSelection, Topics,
};
use persona_spirit::store::{RecordAccepted, RecordIdentifier, RecordObservation};
use persona_spirit::trace::{ActorTrace, TraceAction, TraceNode};

fn entry(description: &str) -> Entry {
    Entry {
        topics: Topics::single(Topic::new("workspace".to_string())),
        kind: Kind::Decision,
        description: Description::new(description.to_string()),
        certainty: Magnitude::High,
        privacy: Magnitude::Zero,
    }
}

fn public_query() -> PublicRecordQuery {
    PublicRecordQuery {
        topic_selection: TopicSelection::any(),
        kind: None,
        certainty_selection: MagnitudeSelection::Any,
        recorded_time_selection: RecordedTimeSelection::Any,
        mode: ObservationMode::SummaryOnly,
    }
}

fn observation_for(request: Operation, reply: SpiritReply) -> SemaObservation {
    let command = Command::from_request(request).expect("ordinary request projects to command");
    let effect = Effect::from_reply(reply);
    effect.sema_observation_for(&command)
}

#[test]
fn spirit_routes_read_commands_to_sema_read_step() {
    let action = SpiritRuntimeEngines::action_for_command(Command::ReadState);

    assert!(matches!(action, SpiritNexusAction::CommandSemaRead(_)));
}

#[test]
fn spirit_routes_write_commands_to_sema_write_step() {
    let action = SpiritRuntimeEngines::action_for_command(Command::AssertEntry(entry(
        "runner command",
    )));

    assert!(matches!(action, SpiritNexusAction::CommandSemaWrite(_)));
}

#[test]
fn record_assertion_projects_to_asserted_labels() {
    let reply = SpiritReply::RecordAccepted(RecordAccepted::new(RecordIdentifier::new(7)));
    assert_eq!(
        observation_for(Operation::Record(entry("asserted projection")), reply),
        SemaObservation::new(SemaOperation::Assert, SemaOutcome::Asserted)
    );
}

#[test]
fn statement_and_topic_catalog_project_to_their_labels() {
    let statement = Operation::State(Statement { text: "capture this statement".to_string() });
    let reply = SpiritReply::RecordAccepted(RecordAccepted::new(RecordIdentifier::new(1)));
    assert_eq!(
        observation_for(statement, reply),
        SemaObservation::new(SemaOperation::Assert, SemaOutcome::Asserted)
    );

    let catalog = Operation::Observe(Observation::Topics);
    let command = Command::from_request(catalog).expect("catalog command");
    assert_eq!(command, Command::ReadTopics);
    assert_eq!(command.operation_kind(), OperationKind::Observe);
    assert_eq!(command.to_sema_operation(), SemaOperation::Match);
}

#[test]
fn unimplemented_observer_operations_project_as_no_change() {
    let unimplemented = || SpiritReply::RequestUnimplemented(UnimplementedReason::NotBuiltYet);
    assert_eq!(
        observation_for(Operation::Tap(ObserverFilter::All), unimplemented()),
        SemaObservation::new(SemaOperation::Subscribe, SemaOutcome::NoChange)
    );
    assert_eq!(
        observation_for(
            Operation::Untap(ObserverSubscriptionToken { identifier: 1 }),
            unimplemented()
        ),
        SemaObservation::new(SemaOperation::Retract, SemaOutcome::NoChange)
    );
}

#[test]
fn public_record_query_sees_only_public_records() {
    let command = Command::from_request(Operation::Observe(Observation::Records(public_query())))
        .expect("record query command");
    assert_eq!(
        command,
        Command::ReadRecords(RecordObservation {
            query: RecordQuery {
                topic_selection: TopicSelection::any(),
                kind: None,
                certainty_selection: MagnitudeSelection::Any,
                recorded_time_selection: RecordedTimeSelection::Any,
                privacy_selection: MagnitudeSelection::Exact(Magnitude::Zero),
                mode: ObservationMode::SummaryOnly,
            },
        })
    );
}

#[test]
fn state_subscription_commands_keep_their_kinds() {
    let open = Command::from_request(Operation::Watch(Subscription::State)).expect("watch");
    assert_eq!(open, Command::OpenStateSubscription);
    assert_eq!(open.operation_kind(), OperationKind::Watch);
    assert_eq!(open.to_sema_operation(), SemaOperation::Subscribe);

    let token = StateSubscriptionToken { identifier: 3 };
    let close = Command::from_request(Operation::Unwatch(SubscriptionToken::State(token)))
        .expect("unwatch");
    assert_eq!(close, Command::CloseStateSubscription(token));
    assert_eq!(close.operation_kind(), OperationKind::Unwatch);
    assert_eq!(close.to_sema_operation(), SemaOperation::Retract);
}

#[test]
fn effect_outcomes_follow_the_reply() {
    let accepted = Effect::from_reply(SpiritReply::RecordAccepted(RecordAccepted::new(
        RecordIdentifier::new(2),
    )));
    assert_eq!(accepted.outcome(), EffectOutcome::RecordCaptured);
    assert_eq!(
        accepted.into_reply(),
        SpiritReply::RecordAccepted(RecordAccepted::new(RecordIdentifier::new(2)))
    );
    let unimplemented =
        Effect::from_reply(SpiritReply::RequestUnimplemented(UnimplementedReason::NotBuiltYet));
    assert_eq!(unimplemented.outcome(), EffectOutcome::NoChange);
}

#[test]
fn signal_then_completion_is_answered_with_the_effect_reply() {
    let mut engines = SpiritRuntimeEngines::new(ActorTrace::new());
    let step = engines.decide_next_step(SpiritNexusWork::SignalArrived(Operation::Record(entry(
        "write path",
    ))));
    let command = match step {
        NextStep::SemaWrite(command) => command,
        other => panic!("expected a write step, got {other:?}"),
    };
    let work = engines.complete_command(
        command,
        Ok(SpiritReply::RecordAccepted(RecordAccepted::new(RecordIdentifier::new(9)))),
    );
    let reply = engines.decide_next_step(work);
    assert_eq!(
        reply,
        NextStep::Reply(SpiritReply::RecordAccepted(RecordAccepted::new(RecordIdentifier::new(9))))
    );
    assert!(engines
        .trace()
        .contains_action(TraceNode::signal_executor(), TraceAction::OperationReceived));
    assert!(engines
        .trace()
        .contains_action(TraceNode::sema_observer(), TraceAction::ObservationProjected));
    assert_eq!(engines.take_last_error(), None);
}

#[test]
fn rejected_step_keeps_its_error_and_answers_unimplemented() {
    let mut engines = SpiritRuntimeEngines::new(ActorTrace::new());
    let step = engines.decide_next_step(SpiritNexusWork::SignalArrived(Operation::Observe(
        Observation::State,
    )));
    let command = match step {
        NextStep::SemaRead(command) => command,
        other => panic!("expected a read step, got {other:?}"),
    };
    let failure = Error::ActorRuntime { reason: "state plane stopped".to_string() };
    let work = engines.complete_command(command, Err(failure.clone()));
    assert_eq!(
        engines.decide_next_step(work),
        NextStep::Reply(SpiritReply::RequestUnimplemented(
            UnimplementedReason::IntegrationNotLanded
        ))
    );
    assert_eq!(engines.take_last_error(), Some(failure));
    assert_eq!(engines.take_last_error(), None);
}

#[test]
fn multi_operation_frame_is_aborted_before_anything_runs() {
    let mut trace = ActorTrace::new();
    let frame = vec![
        Operation::Observe(Observation::Topics),
        Operation::Observe(Observation::State),
    ];
    let reply = DispatchPhase::accept_frame(frame, &mut trace).expect_err("two operations refused");
    assert_eq!(
        reply,
        FrameReply::BatchAborted {
            reason: BatchFailureReason::EngineRejected,
            retry: RetryClassification::NotRetryable,
            commit: CommitStatus::NotCommitted,
            per_operation: vec![SubReply::Invalidated, SubReply::Invalidated],
        }
    );
    assert!(trace.contains_action(TraceNode::dispatch_phase(), TraceAction::MessageReceived));
}

#[test]
fn single_operation_frame_is_accepted_and_committed() {
    let mut trace = ActorTrace::new();
    let accepted = DispatchPhase::accept_frame(vec![Operation::Observe(Observation::Topics)], &mut trace)
        .expect("one operation accepted");
    assert_eq!(accepted, Operation::Observe(Observation::Topics));

    let reply = DispatchPhase::frame_reply(
        SpiritReply::RequestUnimplemented(UnimplementedReason::NotBuiltYet),
        None,
    );
    assert_eq!(
        reply,
        FrameReply::Committed {
            per_operation: vec![SubReply::Answered(SpiritReply::RequestUnimplemented(
                UnimplementedReason::NotBuiltYet
            ))],
        }
    );
}

#[test]
fn engine_fault_aborts_with_unknown_commit() {
    let reply = DispatchPhase::frame_reply(
        SpiritReply::RequestUnimplemented(UnimplementedReason::NotBuiltYet),
        Some(Error::InputOutput { reason: "disk".to_string() }),
    );
    assert_eq!(
        reply,
        FrameReply::BatchAborted {
            reason: BatchFailureReason::EngineUnavailable,
            retry: RetryClassification::Unknown,
            commit: CommitStatus::Unknown,
            per_operation: vec![SubReply::Invalidated],
        }
    );
    let empty = DispatchPhase::batch_aborted_reply(
        &Error::UnsupportedAtomicBatch { operation_count: 0 },
        0,
    );
    assert!(matches!(empty, FrameReply::BatchAborted { ref per_operation, .. } if per_operation.len() == 1));
}

#[test]
fn execution_plans_follow_the_planes() {
    assert_eq!(
        SpiritRuntimeEngines::execution_plan(&Command::ClassifyStatement(Statement {
            text: "capture this".to_string(),
        })),
        vec![PlaneStep::Classifier, PlaneStep::Clock, PlaneStep::RecordStoreWrite]
    );
    assert_eq!(
        SpiritRuntimeEngines::execution_plan(&Command::AssertEntry(entry("stamped"))),
        vec![PlaneStep::Clock, PlaneStep::RecordStoreWrite]
    );
    assert_eq!(
        SpiritRuntimeEngines::execution_plan(&Command::ReadTopics),
        vec![PlaneStep::RecordStoreRead]
    );
    assert_eq!(
        SpiritRuntimeEngines::execution_plan(&Command::ReadQuestions),
        vec![PlaneStep::StatePlane]
    );
    assert_eq!(
        SpiritRuntimeEngines::execution_plan(&Command::OpenStateSubscription),
        vec![PlaneStep::StatePlane, PlaneStep::SubscriptionPlane]
    );
    assert_eq!(
        SpiritRuntimeEngines::execution_plan(&Command::CloseStateSubscription(
            StateSubscriptionToken { identifier: 1 }
        )),
        vec![PlaneStep::SubscriptionPlane]
    );
    assert_eq!(
        SpiritRuntimeEngines::execution_plan(&Command::OpenObserverSubscription(ObserverFilter::All)),
        vec![PlaneStep::ReplyShaper]
    );
}
