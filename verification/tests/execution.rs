use persona_spirit::actors::classifier::{ClassificationPolicy, ClassifierPlane, Statement};
use persona_spirit::actors::dispatch::{SpiritPlanes, SpiritRuntimeEngines};
use persona_spirit::actors::record_store::RecordStore;
use persona_spirit::actors::reply::{ReplyShaper, UnimplementedPolicy};
use persona_spirit::actors::state::{StatePlane, WorkingState};
use persona_spirit::actors::subscription::{SubscriptionIdentifiers, SubscriptionPlane};
use persona_spirit::actors::vocabulary::{
    ObserverFilter, RecordSubscription, SubscriptionSnapshot, SubscriptionToken,
    UnimplementedReason,
};
use persona_spirit::clock::{ClockPlane, ClockSource};
use persona_spirit::daemon::{PublicSockets, SocketPath};
use persona_spirit::error::{Error, RequestRejectionReason};
use persona_spirit::handover::{
    ComponentName, HandoverCompletion, HandoverReadiness, UpgradeController, UpgradeOperation,
    UpgradeReply,
};
use persona_spirit::observation::{Command, Effect, RecordSubscriptionObservation};
use persona_spirit::record::{
    Description, Entry, Kind, Magnitude, MagnitudeSelection, ObservationMode, RecordQuery,
    RecordedTimeSelection, Topic, TopicSelection, Topics,
};
use persona_spirit::store::{RecordIdentifier, RecordObservation, SpiritStore, StoreLocation};
use persona_spirit::trace::{ActorTrace, TraceAction, TraceNode};

fn planes() -> SpiritPlanes {
    SpiritPlanes {
        classifier: ClassifierPlane::new(ClassificationPolicy::default()),
        clock: ClockPlane::new(ClockSource::new(0)),
        store: RecordStore::new(SpiritStore::open(&StoreLocation::new(
            "/tmp/persona-spirit-execution.redb".to_string(),
        ))),
        state: StatePlane::new(WorkingState::default()),
        subscription: SubscriptionPlane::new(SubscriptionIdentifiers::default()),
        reply: ReplyShaper::new(UnimplementedPolicy::default()),
    }
}

fn entry(description: &str) -> Entry {
    Entry {
        topics: Topics::single(Topic::new("workspace".to_string())),
        kind: Kind::Decision,
        description: Description::new(description.to_string()),
        certainty: Magnitude::High,
        privacy: Magnitude::Zero,
    }
}

const NOON_2026_05_21: i64 = 1_779_364_800;

#[test]
fn statement_is_classified_stamped_and_stored() {
    let mut planes = planes();
    let mut engines = SpiritRuntimeEngines::new(ActorTrace::new());
    let done = engines
        .execute_command(
            &mut planes,
            Command::ClassifyStatement(Statement { text: "capture this".to_string() }),
            NOON_2026_05_21,
            true,
        )
        .expect("statement captured");
    assert!(matches!(done.effect, Effect::RecordAccepted(_)));
    assert!(engines.trace().contains_ordered(&[
        TraceNode::classifier_plane(),
        TraceNode::clock_plane(),
        TraceNode::record_store(),
        TraceNode::sema_writer(),
    ]));

    let read = engines
        .execute_command(
            &mut planes,
            Command::ReadRecords(RecordObservation {
                query: RecordQuery {
                    topic_selection: TopicSelection::any(),
                    kind: None,
                    certainty_selection: MagnitudeSelection::Any,
                    recorded_time_selection: RecordedTimeSelection::Any,
                    privacy_selection: MagnitudeSelection::Any,
                    mode: ObservationMode::SummaryOnly,
                },
            }),
            NOON_2026_05_21,
            true,
        )
        .expect("records read");
    let Effect::RecordsObserved(summaries) = read.effect else {
        panic!("expected summaries");
    };
    assert_eq!(summaries.len(), 1);
    assert_eq!(summaries[0].kind, Kind::Clarification);
    assert_eq!(summaries[0].certainty, Magnitude::Minimum);
    assert_eq!(summaries[0].description.as_str(), "capture this");
}

#[test]
fn entries_get_distinct_identifiers_and_removal_answers() {
    let mut planes = planes();
    let mut engines = SpiritRuntimeEngines::new(ActorTrace::new());
    let first = engines
        .execute_command(&mut planes, Command::AssertEntry(entry("one")), NOON_2026_05_21, true)
        .expect("first");
    let second = engines
        .execute_command(&mut planes, Command::AssertEntry(entry("one")), NOON_2026_05_21, true)
        .expect("second");
    let (Effect::RecordAccepted(a), Effect::RecordAccepted(b)) = (first.effect, second.effect) else {
        panic!("expected receipts");
    };
    assert_ne!(a.identifier(), b.identifier());
    let removed = engines
        .execute_command(&mut planes, Command::RemoveRecord(a.identifier()), NOON_2026_05_21, true)
        .expect("removed");
    assert!(matches!(removed.effect, Effect::RecordRemoved(r) if r.identifier == a.identifier()));
    assert_eq!(removed.command, Command::RemoveRecord(RecordIdentifier::new(a.identifier().value)));
}

#[test]
fn subscriptions_open_and_close_through_the_subscription_plane() {
    let mut planes = planes();
    let mut engines = SpiritRuntimeEngines::new(ActorTrace::new());
    let opened = engines
        .execute_command(&mut planes, Command::OpenStateSubscription, NOON_2026_05_21, true)
        .expect("state subscription opened");
    let Effect::SubscriptionOpened { token: SubscriptionToken::State(token), snapshot: SubscriptionSnapshot::State(_) } =
        opened.effect
    else {
        panic!("expected a state subscription");
    };
    assert!(engines
        .trace()
        .contains_action(TraceNode::subscription_plane(), TraceAction::SubscriptionOpened));
    let closed = engines
        .execute_command(&mut planes, Command::CloseStateSubscription(token), NOON_2026_05_21, true)
        .expect("closed");
    assert!(matches!(closed.effect, Effect::SubscriptionRetracted { .. }));

    let records = engines
        .execute_command(
            &mut planes,
            Command::OpenRecordSubscription(RecordSubscriptionObservation::public(
                RecordSubscription { topic: None, mode: ObservationMode::SummaryOnly },
            )),
            NOON_2026_05_21,
            true,
        )
        .expect("record subscription opened");
    assert!(matches!(
        records.effect,
        Effect::SubscriptionOpened { token: SubscriptionToken::Records(_), .. }
    ));
}

#[test]
fn observer_taps_are_shaped_as_unimplemented() {
    let mut planes = planes();
    let mut engines = SpiritRuntimeEngines::new(ActorTrace::new());
    let tapped = engines
        .execute_command(
            &mut planes,
            Command::OpenObserverSubscription(ObserverFilter::All),
            NOON_2026_05_21,
            true,
        )
        .expect("tap answered");
    assert_eq!(
        tapped.effect,
        Effect::RequestUnimplemented(UnimplementedReason::NotBuiltYet)
    );
    assert!(!engines.trace().contains(TraceNode::record_store()));
}

const UPGRADE_NOW: u64 = 1_779_364_800;

fn component() -> ComponentName {
    ComponentName::new("persona-spirit".to_string())
}

fn upgrade_store() -> SpiritStore {
    SpiritStore::open(&StoreLocation::new("/tmp/persona-spirit-upgrade.redb".to_string()))
}

fn accept_readiness(controller: &mut UpgradeController, store: &mut SpiritStore) -> UpgradeReply {
    let UpgradeReply::HandoverMarker(marker) = controller
        .submit_upgrade_request(store, UpgradeOperation::AskHandoverMarker(component()), UPGRADE_NOW)
        .expect("marker read")
    else {
        panic!("expected a marker");
    };
    controller
        .submit_upgrade_request(
            store,
            UpgradeOperation::ReadyToHandover(HandoverReadiness {
                component: component(),
                source_marker: marker,
            }),
            UPGRADE_NOW,
        )
        .expect("readiness answered")
}

fn receiver_internal() -> Error {
    Error::RequestRejected { reason: RequestRejectionReason::ReceiverInternal }
}

#[test]
fn persona_spirit_upgrade_readiness_freezes_public_writes_until_completion() {
    let mut planes = planes();
    let mut engines = SpiritRuntimeEngines::new(ActorTrace::new());
    let mut store = upgrade_store();
    let mut controller = UpgradeController::new();
    let mut sockets = PublicSockets::open(
        SocketPath::new("/tmp/persona-spirit-freeze.sock".to_string()),
        SocketPath::new("/tmp/persona-spirit-freeze-owner.sock".to_string()),
    );

    let UpgradeReply::HandoverAccepted { accepted_marker } =
        accept_readiness(&mut controller, &mut store)
    else {
        panic!("expected acceptance");
    };

    let write = engines.execute_admitted_command(
        &mut planes,
        &controller,
        Command::AssertEntry(entry("write after readiness")),
        NOON_2026_05_21,
        true,
    );
    assert_eq!(write, Err(receiver_internal()));

    let read = engines
        .execute_admitted_command(&mut planes, &controller, Command::ReadTopics, NOON_2026_05_21, true)
        .expect("ordinary read remains available during handover mode");
    let Effect::TopicsObserved(observed) = read.effect else {
        panic!("expected topics");
    };
    assert!(observed.topics.is_empty());

    let completion = |marker| {
        UpgradeOperation::HandoverCompleted(HandoverCompletion {
            component: component(),
            accepted_marker: marker,
        })
    };
    let reply = controller
        .submit_upgrade_request(&mut store, completion(accepted_marker.clone()), UPGRADE_NOW)
        .expect("completion answered");
    assert_eq!(
        reply,
        UpgradeReply::HandoverFinalized { finalized_marker: accepted_marker.clone() }
    );
    sockets.after_upgrade_reply(&completion(accepted_marker), &reply);
    assert!(!sockets.is_accepting());
}

#[test]
fn persona_spirit_upgrade_recovery_reopens_public_writes_after_readiness() {
    let mut planes = planes();
    let mut engines = SpiritRuntimeEngines::new(ActorTrace::new());
    let mut store = upgrade_store();
    let mut controller = UpgradeController::new();
    assert!(matches!(
        accept_readiness(&mut controller, &mut store),
        UpgradeReply::HandoverAccepted { .. }
    ));
    let frozen = engines.execute_admitted_command(
        &mut planes,
        &controller,
        Command::AssertEntry(entry("write while frozen")),
        NOON_2026_05_21,
        true,
    );
    assert_eq!(frozen, Err(receiver_internal()));

    let reply = controller
        .submit_upgrade_request(
            &mut store,
            UpgradeOperation::RecoverFromFailure(component()),
            UPGRADE_NOW,
        )
        .expect("recovery answered");
    assert_eq!(
        reply,
        UpgradeReply::RecoveryCompleted { component: component(), recovered: true }
    );
    assert!(controller.is_active());

    let reopened = engines
        .execute_admitted_command(
            &mut planes,
            &controller,
            Command::AssertEntry(entry("write after recovery")),
            NOON_2026_05_21,
            true,
        )
        .expect("public writes reopen after recovery");
    assert!(matches!(reopened.effect, Effect::RecordAccepted(_)));
}

#[test]
fn writes_outside_a_handover_are_carried_out() {
    let mut planes = planes();
    let mut engines = SpiritRuntimeEngines::new(ActorTrace::new());
    let controller = UpgradeController::new();
    let done = engines
        .execute_admitted_command(
            &mut planes,
            &controller,
            Command::AssertEntry(entry("ordinary write")),
            NOON_2026_05_21,
            true,
        )
        .expect("write accepted");
    assert!(matches!(done.effect, Effect::RecordAccepted(_)));
}
