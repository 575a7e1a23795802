use persona_spirit::schema_driven::observer::{
    CloseObserverSubscription, ObserverAction, ObserverResponse, ObserverStatus,
    OpenObserverSubscription, PublishRecordCaptured, SpiritObserver,
};
use persona_spirit::schema_driven::reading_actor::{
    AttachLogSink, DetachLogSink, DispatchDestination, DispatchEnvelope, DispatchOutcome,
    LogLevel, ReadingActor, ReadingActorAction, ReadingActorResponse, TapSource,
};
use persona_spirit::schema_driven::recorder::{
    CloseRecordSubscription, OpenRecordSubscription, RecordEntry, RecordHealthLevel,
    RecorderAction, RecorderResponse, SpiritRecorder,
};
use persona_spirit::schema_driven::storage::{
    SpiritStorageHandle, StorageDescriptor, UpgradeOutcome, VersionMarker,
};
use persona_spirit::schema_driven::supervisor::{
    DrainEngine, DrainReason, EngineLifecycleState, ReloadBootstrapPolicy, SpiritSupervisor,
    StartEngine, StartReason, SupervisorAction, SupervisorResponse,
};

fn handle_for_test(stub: &str) -> SpiritStorageHandle {
    SpiritStorageHandle::open(format!("/tmp/persona-spirit-recorder-{stub}/store.redb"), None, 0, 0)
}

#[test]
fn observer_subscription_lifecycle_round_trips_token() {
    let mut observer = SpiritObserver::new();
    let opened = observer.handle(ObserverAction::OpenObserverSubscription(
        OpenObserverSubscription { topic_filter: None },
    ));
    let token = match opened {
        ObserverResponse::ObserverSubscriptionOpened(token) => token,
        other => panic!("expected ObserverSubscriptionOpened, got {other:?}"),
    };
    let closed = observer.handle(ObserverAction::CloseObserverSubscription(
        CloseObserverSubscription { token },
    ));
    assert!(matches!(
        closed,
        ObserverResponse::ObserverSubscriptionRetracted(t) if t == token
    ));
}

#[test]
fn publish_with_matching_filter_dispatches_to_all_subscribers() {
    let mut observer = SpiritObserver::new();
    observer.handle(ObserverAction::OpenObserverSubscription(OpenObserverSubscription {
        topic_filter: Some("intent".into()),
    }));
    observer.handle(ObserverAction::OpenObserverSubscription(OpenObserverSubscription {
        topic_filter: None,
    }));
    let response = observer.handle(ObserverAction::PublishRecordCaptured(PublishRecordCaptured {
        topic: "intent".into(),
        identifier: 42,
    }));
    assert!(matches!(response, ObserverResponse::NotificationDispatched(2)));
}

#[test]
fn publish_with_non_matching_filter_only_dispatches_to_wildcards() {
    let mut observer = SpiritObserver::new();
    observer.handle(ObserverAction::OpenObserverSubscription(OpenObserverSubscription {
        topic_filter: Some("statement".into()),
    }));
    observer.handle(ObserverAction::OpenObserverSubscription(OpenObserverSubscription {
        topic_filter: None,
    }));
    let response = observer.handle(ObserverAction::PublishRecordCaptured(PublishRecordCaptured {
        topic: "intent".into(),
        identifier: 42,
    }));
    assert!(matches!(response, ObserverResponse::NotificationDispatched(1)));
}

#[test]
fn observer_status_counts_subscribers_and_notifications() {
    let mut observer = SpiritObserver::new();
    let first = observer.handle(ObserverAction::OpenObserverSubscription(
        OpenObserverSubscription { topic_filter: None },
    ));
    let second = observer.handle(ObserverAction::OpenObserverSubscription(
        OpenObserverSubscription { topic_filter: Some("intent".into()) },
    ));
    assert_eq!(first, ObserverResponse::ObserverSubscriptionOpened(1));
    assert_eq!(second, ObserverResponse::ObserverSubscriptionOpened(2));
    observer.handle(ObserverAction::PublishRecordCaptured(PublishRecordCaptured {
        topic: "intent".into(),
        identifier: 1,
    }));
    observer.handle(ObserverAction::CloseObserverSubscription(CloseObserverSubscription {
        token: 1,
    }));
    let status = observer.handle(ObserverAction::QueryStatus);
    assert_eq!(
        status,
        ObserverResponse::StatusReturned(ObserverStatus {
            subscribers_active: 1,
            notifications_dispatched: 2,
        })
    );
    // Closing an unknown token still answers with that token and changes nothing.
    let closed = observer.handle(ObserverAction::CloseObserverSubscription(
        CloseObserverSubscription { token: 99 },
    ));
    assert_eq!(closed, ObserverResponse::ObserverSubscriptionRetracted(99));
    let status = observer.handle(ObserverAction::QueryStatus);
    assert_eq!(
        status,
        ObserverResponse::StatusReturned(ObserverStatus {
            subscribers_active: 1,
            notifications_dispatched: 2,
        })
    );
}

#[test]
fn log_sink_attach_and_detach() {
    let mut reading = ReadingActor::new();
    let attached = reading.handle(ReadingActorAction::AttachLogSink(AttachLogSink {
        identifier: 42,
        level: LogLevel::Info,
    }));
    assert!(matches!(attached, ReadingActorResponse::LogSinkAttached(42)));
    let detached =
        reading.handle(ReadingActorAction::DetachLogSink(DetachLogSink { identifier: 42 }));
    assert!(matches!(detached, ReadingActorResponse::LogSinkDetached(42)));
}

#[test]
fn dispatch_records_tap_capture_and_increments_delivered() {
    let mut reading = ReadingActor::new();
    let response = reading.handle(ReadingActorAction::DispatchRecorderResponse(
        DispatchEnvelope { correlation_token: 7, destination: DispatchDestination::WireReply },
        RecorderResponse::RecordAccepted(1),
    ));
    assert!(matches!(
        response,
        ReadingActorResponse::ResponseDispatched(DispatchOutcome::Delivered)
    ));
    assert_eq!(reading.delivered_count(), 1);
    let taps = reading.tap_captures();
    assert_eq!(taps.len(), 1);
    assert_eq!(taps[0].correlation_token, 7);
    assert!(matches!(taps[0].source, TapSource::Recorder));
}

#[test]
fn log_only_destination_does_not_increment_delivered() {
    let mut reading = ReadingActor::new();
    let response = reading.handle(ReadingActorAction::DispatchObserverResponse(
        DispatchEnvelope { correlation_token: 8, destination: DispatchDestination::LogOnly },
        ObserverResponse::NotificationDispatched(0),
    ));
    assert!(matches!(
        response,
        ReadingActorResponse::ResponseDispatched(DispatchOutcome::LogOnly)
    ));
    assert_eq!(reading.delivered_count(), 0);
    let taps = reading.tap_captures();
    assert_eq!(taps.len(), 1);
    assert!(matches!(taps[0].source, TapSource::Observer));
}

#[test]
fn subscriber_and_tap_destinations_follow_the_outcome_table() {
    let mut reading = ReadingActor::new();
    let delivered = reading.handle(ReadingActorAction::DispatchSupervisorResponse(
        DispatchEnvelope { correlation_token: 1, destination: DispatchDestination::Subscriber },
        SupervisorResponse::OwnerRegistered(5),
    ));
    let tapped = reading.handle(ReadingActorAction::DispatchSupervisorResponse(
        DispatchEnvelope { correlation_token: 2, destination: DispatchDestination::Tap },
        SupervisorResponse::OwnerRetired(5),
    ));
    assert_eq!(delivered, ReadingActorResponse::ResponseDispatched(DispatchOutcome::Delivered));
    assert_eq!(tapped, ReadingActorResponse::ResponseDispatched(DispatchOutcome::LogOnly));
    assert_eq!(reading.delivered_count(), 1);
    let taps = reading.tap_captures();
    assert_eq!(taps.len(), 2);
    assert_eq!(taps[1].correlation_token, 2);
    assert_eq!(taps[1].destination, DispatchDestination::Tap);
    assert_eq!(taps[1].source, TapSource::Supervisor);
}

#[test]
fn record_entry_returns_record_accepted_with_fresh_identifier() {
    let mut recorder = SpiritRecorder::new(handle_for_test("record-entry"));
    let response = recorder.handle(RecorderAction::RecordEntry(RecordEntry {
        topic: "topic".into(),
        description: "description".into(),
    }));
    match response {
        RecorderResponse::RecordAccepted(identifier) => assert_eq!(identifier, 1),
        other => panic!("expected RecordAccepted, got {other:?}"),
    }
}

#[test]
fn query_status_reflects_record_count() {
    let mut recorder = SpiritRecorder::new(handle_for_test("query-status"));
    recorder.handle(RecorderAction::RecordEntry(RecordEntry {
        topic: "topic".into(),
        description: "description".into(),
    }));
    recorder.handle(RecorderAction::RecordEntry(RecordEntry {
        topic: "topic".into(),
        description: "description".into(),
    }));
    match recorder.handle(RecorderAction::QueryStatus) {
        RecorderResponse::StatusReturned(status) => {
            assert_eq!(status.records_written, 2);
            assert!(matches!(status.health_level, RecordHealthLevel::Nominal));
        }
        other => panic!("expected StatusReturned, got {other:?}"),
    }
}

#[test]
fn recorder_subscription_lifecycle_round_trips_token() {
    let mut recorder = SpiritRecorder::new(handle_for_test("subscription"));
    let opened = recorder.handle(RecorderAction::OpenRecordSubscription(OpenRecordSubscription {
        topic_filter: None,
    }));
    let token = match opened {
        RecorderResponse::SubscriptionOpened(token) => token,
        other => panic!("expected SubscriptionOpened, got {other:?}"),
    };
    let closed = recorder.handle(RecorderAction::CloseRecordSubscription(
        CloseRecordSubscription { token },
    ));
    assert!(matches!(closed, RecorderResponse::SubscriptionRetracted(t) if t == token));
}

#[test]
fn unknown_variant_is_the_safety_floor() {
    let response = RecorderResponse::Unknown("rejected".into());
    assert!(matches!(response, RecorderResponse::Unknown(reason) if reason == "rejected"));
}

#[test]
fn storage_descriptor_knows_authored_table_layout() {
    assert_eq!(StorageDescriptor::tables().len(), 2);
    assert_eq!(StorageDescriptor::table_type_for("Records"), Some("RecordsTable"));
    assert_eq!(
        StorageDescriptor::table_type_for("RecordIdentifierMint"),
        Some("RecordIdentifierMintTable")
    );
    assert_eq!(StorageDescriptor::table_type_for("Missing"), None);
}

#[test]
fn fresh_database_writes_next_marker_and_logs_no_migration() {
    let handle = SpiritStorageHandle::open("/tmp/fresh.redb".to_string(), None, 10, 10);
    assert_eq!(handle.current_marker(), Some(VersionMarker::next()));
    assert_eq!(handle.marker_to_write(), Some(VersionMarker::next()));
    let log = handle.upgrade_log();
    assert_eq!(log.len(), 1);
    assert!(matches!(log[0].outcome, UpgradeOutcome::NoMigrationNeeded));
}

#[test]
fn previous_version_database_runs_migration_and_logs_success() {
    let handle = SpiritStorageHandle::open(
        "/tmp/migrate.redb".to_string(),
        Some(VersionMarker::main()),
        100,
        175,
    );
    assert_eq!(handle.current_marker(), Some(VersionMarker::next()));
    let log = handle.upgrade_log();
    assert_eq!(log.len(), 1);
    assert_eq!(log[0].from, VersionMarker::main());
    assert_eq!(log[0].to, VersionMarker::next());
    assert!(matches!(log[0].outcome, UpgradeOutcome::MigratedSuccessfully));

    let reopened = SpiritStorageHandle::open(
        "/tmp/migrate.redb".to_string(),
        handle.marker_to_write(),
        200,
        200,
    );
    assert_eq!(reopened.current_marker(), Some(VersionMarker::next()));
    let reopened_log = reopened.upgrade_log();
    assert_eq!(reopened_log.len(), 1);
    assert!(matches!(reopened_log[0].outcome, UpgradeOutcome::NoMigrationNeeded));
}

#[test]
fn start_transitions_to_running() {
    let mut supervisor = SpiritSupervisor::new();
    let response = supervisor.handle(
        SupervisorAction::StartEngine(StartEngine { reason: StartReason::FreshStart }),
        1_000,
    );
    match response {
        SupervisorResponse::EngineStarted(state) => {
            assert!(matches!(state.lifecycle, EngineLifecycleState::Running))
        }
        other => panic!("expected EngineStarted, got {other:?}"),
    }
}

#[test]
fn drain_transitions_to_drained() {
    let mut supervisor = SpiritSupervisor::new();
    supervisor.handle(
        SupervisorAction::StartEngine(StartEngine { reason: StartReason::FreshStart }),
        1_000,
    );
    let response = supervisor.handle(
        SupervisorAction::DrainEngine(DrainEngine { reason: DrainReason::ShuttingDown }),
        4_500,
    );
    match response {
        SupervisorResponse::EngineDrained(state) => {
            assert!(matches!(state.lifecycle, EngineLifecycleState::Drained));
            assert_eq!(state.uptime_micros, 3_500);
        }
        other => panic!("expected EngineDrained, got {other:?}"),
    }
}

#[test]
fn reload_remembers_policy_source() {
    let mut supervisor = SpiritSupervisor::new();
    let response = supervisor.handle(
        SupervisorAction::ReloadBootstrapPolicy(ReloadBootstrapPolicy {
            source: "/etc/persona/bootstrap.nota".into(),
        }),
        0,
    );
    match response {
        SupervisorResponse::BootstrapPolicyReloaded(snapshot) => {
            assert_eq!(snapshot.source, "/etc/persona/bootstrap.nota");
        }
        other => panic!("expected BootstrapPolicyReloaded, got {other:?}"),
    }
}

#[test]
fn status_before_start_reports_starting_and_clock_behind_start_gives_zero_uptime() {
    let mut supervisor = SpiritSupervisor::new();
    let status = supervisor.handle(SupervisorAction::QueryEngineStatus, 50);
    match status {
        SupervisorResponse::EngineStatusReturned(state) => {
            assert_eq!(state.lifecycle, EngineLifecycleState::Starting);
            assert_eq!(state.uptime_micros, 50);
        }
        other => panic!("expected EngineStatusReturned, got {other:?}"),
    }
    supervisor.handle(SupervisorAction::StartEngine(StartEngine { reason: StartReason::Resume }), 900);
    match supervisor.handle(SupervisorAction::QueryEngineStatus, 800) {
        SupervisorResponse::EngineStatusReturned(state) => {
            assert_eq!(state.lifecycle, EngineLifecycleState::Running);
            assert_eq!(state.uptime_micros, 0);
        }
        other => panic!("expected EngineStatusReturned, got {other:?}"),
    }
}

#[test]
fn observer_tokens_count_up_across_other_actions() {
    let mut observer = SpiritObserver::new();
    let mut tokens = Vec::new();
    for round in 0..3u64 {
        match observer.handle(ObserverAction::OpenObserverSubscription(
            OpenObserverSubscription { topic_filter: None },
        )) {
            ObserverResponse::ObserverSubscriptionOpened(token) => tokens.push(token),
            other => panic!("expected ObserverSubscriptionOpened, got {other:?}"),
        }
        observer.handle(ObserverAction::PublishRecordCaptured(PublishRecordCaptured {
            topic: "intent".into(),
            identifier: round,
        }));
        observer.handle(ObserverAction::CloseObserverSubscription(
            CloseObserverSubscription { token: 1 },
        ));
    }
    assert_eq!(tokens, vec![1, 2, 3]);
}

#[test]
fn recorder_status_counts_entries_between_other_actions() {
    let mut recorder = SpiritRecorder::new(handle_for_test("entries-between"));
    let first = recorder.handle(RecorderAction::RecordEntry(RecordEntry {
        topic: "topic".into(),
        description: "first".into(),
    }));
    assert!(matches!(first, RecorderResponse::RecordAccepted(1)));
    recorder.handle(RecorderAction::OpenRecordSubscription(OpenRecordSubscription {
        topic_filter: None,
    }));
    let second = recorder.handle(RecorderAction::RecordEntry(RecordEntry {
        topic: "topic".into(),
        description: "second".into(),
    }));
    assert!(matches!(second, RecorderResponse::RecordAccepted(2)));
    match recorder.handle(RecorderAction::QueryStatus) {
        RecorderResponse::StatusReturned(status) => {
            assert_eq!(status.records_written, 2);
            assert_eq!(status.subscriptions_open, 1);
        }
        other => panic!("expected StatusReturned, got {other:?}"),
    }
}

#[test]
fn every_dispatch_is_tapped_in_order() {
    let mut reading = ReadingActor::new();
    reading.handle(ReadingActorAction::DispatchRecorderResponse(
        DispatchEnvelope { correlation_token: 3, destination: DispatchDestination::WireReply },
        RecorderResponse::RecordAccepted(1),
    ));
    reading.handle(ReadingActorAction::AttachLogSink(AttachLogSink {
        identifier: 9,
        level: LogLevel::Info,
    }));
    reading.handle(ReadingActorAction::DispatchSupervisorResponse(
        DispatchEnvelope { correlation_token: 4, destination: DispatchDestination::LogOnly },
        SupervisorResponse::OwnerRegistered(5),
    ));
    reading.handle(ReadingActorAction::DispatchObserverResponse(
        DispatchEnvelope { correlation_token: 5, destination: DispatchDestination::Tap },
        ObserverResponse::NotificationDispatched(0),
    ));
    let taps = reading.tap_captures();
    assert_eq!(taps.len(), 3);
    assert_eq!(taps[0].correlation_token, 3);
    assert!(matches!(taps[0].source, TapSource::Recorder));
    assert_eq!(taps[1].correlation_token, 4);
    assert!(matches!(taps[1].source, TapSource::Supervisor));
    assert_eq!(taps[2].correlation_token, 5);
    assert!(matches!(taps[2].source, TapSource::Observer));
    assert_eq!(reading.delivered_count(), 1);
}

#[test]
fn lifecycle_follows_the_last_start_or_drain() {
    let mut supervisor = SpiritSupervisor::new();
    supervisor.handle(
        SupervisorAction::StartEngine(StartEngine { reason: StartReason::FreshStart }),
        10,
    );
    supervisor.handle(
        SupervisorAction::DrainEngine(DrainEngine { reason: DrainReason::ShuttingDown }),
        20,
    );
    supervisor.handle(
        SupervisorAction::ReloadBootstrapPolicy(ReloadBootstrapPolicy { source: "policy".into() }),
        30,
    );
    match supervisor.handle(SupervisorAction::QueryEngineStatus, 40) {
        SupervisorResponse::EngineStatusReturned(state) => {
            assert!(matches!(state.lifecycle, EngineLifecycleState::Drained));
        }
        other => panic!("expected EngineStatusReturned, got {other:?}"),
    }
    supervisor.handle(
        SupervisorAction::StartEngine(StartEngine { reason: StartReason::Resume }),
        50,
    );
    match supervisor.handle(SupervisorAction::QueryEngineStatus, 60) {
        SupervisorResponse::EngineStatusReturned(state) => {
            assert!(matches!(state.lifecycle, EngineLifecycleState::Running));
            assert_eq!(state.uptime_micros, 10);
        }
        other => panic!("expected EngineStatusReturned, got {other:?}"),
    }
}
