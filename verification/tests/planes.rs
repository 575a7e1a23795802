use persona_spirit::clock::CivilDate;
use persona_spirit::actors::classifier::{
    ClassificationPolicy, ClassifierPlane, ClassifyStatement, Statement,
};
use persona_spirit::actors::lifecycle::{
    Generation, IdentityName, LifecycleState, OwnerPlane, OwnerRouting, OwnerSpiritReply,
    OwnerSpiritRequest,
};
use persona_spirit::actors::messages::{NotaDecoder, RootTextReply};
use persona_spirit::actors::reply::{
    EncoderArguments, EncodingPolicy, ReplyShaper, ReplyTextEncoder, ShapeUnimplemented,
    UnimplementedPolicy,
};
use persona_spirit::actors::state::{
    ObserveQuestions, ObserveState, ReadStateSnapshot, StatePlane, WorkingState,
};
use persona_spirit::actors::subscription::{
    OpenRecordSubscription, OpenStateSubscription, RetractRecordSubscription,
    RetractStateSubscription, SubscriptionIdentifiers, SubscriptionPlane,
};
use persona_spirit::actors::vocabulary::{
    OperationKind, Presence, RecordSubscription, RecordSubscriptionToken, SpiritReply, State,
    StateSubscriptionToken, SubscriptionSnapshot, SubscriptionToken, UnimplementedReason,
};
use persona_spirit::policy::{
    BootstrapPolicy, BootstrapPolicySource, MetaReply, PolicyPlane, ReloadBootstrapPolicy,
};
use persona_spirit::record::{Kind, Magnitude, ObservationMode, Topic};
use persona_spirit::trace::{ActorTrace, TraceAction, TraceNode};

fn labels(trace: &ActorTrace) -> Vec<(&'static str, TraceAction)> {
    trace.events().iter().map(|event| (event.node().label(), event.action())).collect()
}

#[test]
fn policy_reload_replaces_policy_only_when_it_loads() {
    let mut plane = PolicyPlane::new(
        BootstrapPolicySource::path("/etc/persona/bootstrap.nota".to_string()),
        Err("missing".to_string()),
    );
    assert!(plane.policy().is_none());
    let reply = plane.reload(
        ReloadBootstrapPolicy { trace: ActorTrace::new() },
        Ok(BootstrapPolicy { text: "allow".to_string() }),
    );
    assert_eq!(reply.reply, MetaReply::BootstrapPolicyReloaded);
    assert_eq!(plane.policy().map(|policy| policy.text.as_str()), Some("allow"));
    assert_eq!(
        labels(&reply.trace),
        vec![("PolicyPlane", TraceAction::MessageReceived), ("PolicyPlane", TraceAction::MessageReplied)]
    );
    let failed = plane.reload(
        ReloadBootstrapPolicy { trace: ActorTrace::new() },
        Err("unreadable".to_string()),
    );
    assert_eq!(
        failed.reply,
        MetaReply::RequestUnimplemented(persona_spirit::policy::UnimplementedReason::DependencyNotReady)
    );
    assert_eq!(plane.policy().map(|policy| policy.text.as_str()), Some("allow"));
    assert_eq!(plane.source(), &BootstrapPolicySource::path("/etc/persona/bootstrap.nota".to_string()));
}

#[test]
fn owner_plane_tracks_generation_and_identities() {
    let mut plane = OwnerPlane::new(LifecycleState::default());
    let started = plane.route(OwnerSpiritRequest::Start { generation: Generation(3) }, ActorTrace::new());
    let OwnerRouting::Replied(started) = started else { panic!("start replies directly") };
    assert_eq!(started.reply, OwnerSpiritReply::Started { generation: Generation(3) });
    assert_eq!(
        labels(&started.trace),
        vec![("OwnerPlane", TraceAction::MessageReceived), ("OwnerPlane", TraceAction::MessageReplied)]
    );
    for _ in 0..2 {
        let registered = plane.route(
            OwnerSpiritRequest::Register { name: IdentityName::new("operator".to_string()) },
            ActorTrace::new(),
        );
        assert!(matches!(
            registered,
            OwnerRouting::Replied(reply)
                if reply.reply == OwnerSpiritReply::IdentityRegistered { name: IdentityName::new("operator".to_string()) }
        ));
    }
    let retired = plane.route(
        OwnerSpiritRequest::Retire { name: IdentityName::new("operator".to_string()) },
        ActorTrace::new(),
    );
    assert!(matches!(retired, OwnerRouting::Replied(reply)
        if reply.reply == OwnerSpiritReply::IdentityRetired { name: IdentityName::new("operator".to_string()) }));
    let drained = plane.route(OwnerSpiritRequest::Drain, ActorTrace::new());
    assert!(matches!(drained, OwnerRouting::Replied(reply) if reply.reply == OwnerSpiritReply::DrainedAndStopped));
}

#[test]
fn owner_plane_hands_reload_to_policy_plane() {
    let mut plane = OwnerPlane::new(LifecycleState::default());
    let routed = plane.route(OwnerSpiritRequest::Reload, ActorTrace::new());
    let OwnerRouting::ReloadPolicy(trace) = routed else { panic!("reload goes to the policy plane") };
    let mut policy = PolicyPlane::new(BootstrapPolicySource::default(), Err("empty".to_string()));
    let reply = plane.finish_reload(policy.reload(ReloadBootstrapPolicy { trace }, Err("empty".to_string())));
    assert_eq!(reply.reply, OwnerSpiritReply::RequestUnimplemented(UnimplementedReason::DependencyNotReady));
    assert_eq!(
        labels(&reply.trace),
        vec![
            ("OwnerPlane", TraceAction::MessageReceived),
            ("PolicyPlane", TraceAction::MessageReceived),
            ("PolicyPlane", TraceAction::MessageReplied),
            ("OwnerPlane", TraceAction::MessageReplied),
        ]
    );
    let unreachable = OwnerPlane::policy_unreachable();
    assert_eq!(unreachable.reply, OwnerSpiritReply::RequestUnimplemented(UnimplementedReason::DependencyNotReady));
}

#[test]
fn classifier_files_statements_under_its_fallback_policy() {
    let plane = ClassifierPlane::new(ClassificationPolicy::default());
    let classified = plane.classify(ClassifyStatement {
        statement: Statement { text: "I want the daemon quieter".to_string() },
        trace: ActorTrace::new(),
    });
    assert_eq!(classified.entry.topics.as_slice(), &[Topic::new("unclassified".to_string())]);
    assert_eq!(classified.entry.kind, Kind::Clarification);
    assert_eq!(classified.entry.description.as_str(), "I want the daemon quieter");
    assert_eq!(classified.entry.certainty, Magnitude::Minimum);
    assert_eq!(classified.entry.privacy, Magnitude::Zero);
    assert_eq!(
        labels(&classified.trace),
        vec![("ClassifierPlane", TraceAction::MessageReceived), ("ClassifierPlane", TraceAction::StatementClassified)]
    );
}

#[test]
fn state_plane_reports_absent_psyche_and_no_questions() {
    let plane = StatePlane::new(WorkingState::default());
    let observed = plane.observe_state(ObserveState { trace: ActorTrace::new() });
    assert_eq!(observed.reply(), &SpiritReply::StateObserved(State { presence: Presence::Absent, focus: None }));
    let questions = plane.observe_questions(ObserveQuestions { trace: ActorTrace::new() });
    assert_eq!(questions.reply(), &SpiritReply::QuestionsObserved(Vec::new()));
    let snapshot = plane.read_state_snapshot(ReadStateSnapshot { trace: ActorTrace::new() });
    assert_eq!(snapshot.state, State { presence: Presence::Absent, focus: None });
    assert_eq!(
        labels(&snapshot.trace),
        vec![("StatePlane", TraceAction::MessageReceived), ("StatePlane", TraceAction::RecordsRead)]
    );
}

#[test]
fn subscription_plane_hands_out_rising_tokens_and_retracts_them() {
    let mut plane = SubscriptionPlane::new(SubscriptionIdentifiers::default());
    let first = plane.open_state(OpenStateSubscription {
        snapshot: State { presence: Presence::Present, focus: Some(Topic::new("spirit".to_string())) },
        trace: ActorTrace::new(),
    });
    let second = plane.open_state(OpenStateSubscription {
        snapshot: State { presence: Presence::Absent, focus: None },
        trace: ActorTrace::new(),
    });
    assert!(matches!(first.reply(), SpiritReply::SubscriptionOpened {
        token: SubscriptionToken::State(StateSubscriptionToken { identifier: 1 }),
        snapshot: SubscriptionSnapshot::State(_),
    }));
    assert!(matches!(second.reply(), SpiritReply::SubscriptionOpened {
        token: SubscriptionToken::State(StateSubscriptionToken { identifier: 2 }),
        ..
    }));
    let records = plane.open_records(OpenRecordSubscription {
        subscription: RecordSubscription { topic: None, mode: ObservationMode::SummaryOnly },
        snapshot: Vec::new(),
        trace: ActorTrace::new(),
    });
    assert!(matches!(records.reply(), SpiritReply::SubscriptionOpened {
        token: SubscriptionToken::Records(RecordSubscriptionToken { identifier: 1 }),
        ..
    }));
    let retracted = plane.retract_state(RetractStateSubscription {
        token: StateSubscriptionToken { identifier: 1 },
        trace: ActorTrace::new(),
    });
    assert_eq!(
        retracted.reply(),
        &SpiritReply::SubscriptionRetracted { token: SubscriptionToken::State(StateSubscriptionToken { identifier: 1 }) }
    );
    assert_eq!(
        labels(retracted.trace()),
        vec![
            ("SubscriptionPlane", TraceAction::MessageReceived),
            ("SubscriptionPlane", TraceAction::SubscriptionRetracted),
            ("SubscriptionPlane", TraceAction::MessageReplied),
        ]
    );
    let retracted_records = plane.retract_records(RetractRecordSubscription {
        token: RecordSubscriptionToken { identifier: 1 },
        trace: ActorTrace::new(),
    });
    assert!(matches!(retracted_records.reply(), SpiritReply::SubscriptionRetracted { .. }));
}

#[test]
fn reply_shaper_blames_missing_integration_only_for_records() {
    let policy = UnimplementedPolicy::default();
    assert_eq!(policy.reason_for(OperationKind::Record), UnimplementedReason::IntegrationNotLanded);
    for operation in [
        OperationKind::State,
        OperationKind::Observe,
        OperationKind::Watch,
        OperationKind::Unwatch,
        OperationKind::Remove,
        OperationKind::ChangeCertainty,
        OperationKind::Tap,
        OperationKind::Untap,
    ] {
        assert_eq!(policy.reason_for(operation), UnimplementedReason::NotBuiltYet);
    }
    let shaper = ReplyShaper::new(policy);
    let shaped = shaper.shape_unimplemented(ShapeUnimplemented { operation: OperationKind::Tap, trace: ActorTrace::new() });
    assert_eq!(shaped.reply(), &SpiritReply::RequestUnimplemented(UnimplementedReason::NotBuiltYet));
    let encoder = ReplyTextEncoder::new(EncoderArguments::default());
    assert!(encoder.policy().is_canonical());
    assert!(!EncodingPolicy::new(false).is_canonical());
    assert!(NotaDecoder::default().strict_end());
}

#[test]
fn root_text_reply_records_the_root_reply() {
    let mut trace = ActorTrace::new();
    trace.record(TraceNode::spirit_root(), TraceAction::MessageReceived);
    let reply = RootTextReply::new("(RecordAccepted 1)".to_string(), trace);
    assert_eq!(reply.text(), "(RecordAccepted 1)");
    assert!(reply.trace().contains_ordered(&[TraceNode::spirit_root(), TraceNode::spirit_root()]));
    assert_eq!(reply.into_text(), "(RecordAccepted 1)");
}

#[test]
fn civil_dates_stay_within_their_month() {
    let leap_day = CivilDate::from_unix_days(19_782);
    assert_eq!(leap_day.into_parts(), (2024, 2, 29));
    let after_leap_day = CivilDate::from_unix_days(19_783);
    assert_eq!(after_leap_day.into_parts(), (2024, 3, 1));
    let end_of_april = CivilDate::from_unix_days(19_477);
    assert_eq!(end_of_april.into_parts(), (2023, 4, 30));
    let first_of_may = CivilDate::from_unix_days(19_478);
    assert_eq!(first_of_may.into_parts(), (2023, 5, 1));
    assert_eq!(CivilDate::from_unix_days(0).into_parts(), (1970, 1, 1));
    assert_eq!(CivilDate::from_unix_days(-1).into_parts(), (1969, 12, 31));
}
