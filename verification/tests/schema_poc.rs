use persona_spirit::record::{Description, Kind, Topic, Topics};
use persona_spirit::schema_poc::daemon::PocDaemon;
use persona_spirit::schema_poc::observer::SpiritObserver;
use persona_spirit::schema_poc::reading_actor::{SpiritReadingActor, TapEntry};
use persona_spirit::schema_poc::recorder::SpiritRecorder;
use persona_spirit::schema_poc::spirit_observer::{
    ObserveRecordsRequest, ObserveTopicsRequest, ObserverAction, ObserverResponse,
};
use persona_spirit::schema_poc::spirit_reading_actor::{
    DispatchEnvelope, Identifier as ReadingIdentifier, ReadingActorAction, ReadingActorResponse,
    ResponseDispatched,
};
use persona_spirit::schema_poc::spirit_recorder::{
    Certainty, Entry as RecorderEntry, Identifier, QueryRecorderStatusRequest, RecordAccepted,
    RecordEntryRequest, RecorderAction, RecorderResponse, RecorderStatus, RecorderStatusReturned,
    Topics as RecorderTopics,
};
use persona_spirit::schema_poc::spirit_storage::{StorageDescriptor, UpgradeOutcome, VersionMarker};
use persona_spirit::schema_poc::spirit_supervisor::{
    DrainEngineRequest, EngineDrained, EngineStarted, EngineStatus, EngineStatusReturned,
    Generation, QueryEngineStatusRequest, StartEngineRequest, SupervisorAction,
    SupervisorResponse,
};
use persona_spirit::schema_poc::spirit_upgrade_log::{
    AppendUpgradeEntryRequest, Identifier as LogIdentifier, QueryUpgradeLogRequest,
    UpgradeEntryAppended, UpgradeLogAction, UpgradeLogEntry, UpgradeLogResponse,
    UpgradeOutcome as LogOutcome, VersionMarker as LogMarker,
};
use persona_spirit::schema_poc::storage::{
    main_version_marker, next_version_marker, SpiritStorageHandle, StorageLocation,
};
use persona_spirit::schema_poc::supervisor::SpiritSupervisor;
use persona_spirit::schema_poc::upgrade_log::SpiritUpgradeLog;
use persona_spirit::schema_poc::wire::{
    Entry, Magnitude, Observation, ObservationMode, Operation, RecordQuery, RecordSubscription,
    RecordSubscriptionToken, Reply, Statement, StatementText, Subscription, SubscriptionToken,
};

fn fixture_topic(value: &str) -> Topic {
    Topic::new(value.to_string())
}

fn fixture_entry() -> Entry {
    Entry {
        topics: Topics::new(vec![fixture_topic("workspace"), fixture_topic("spirit")]),
        kind: Kind::Decision,
        description: Description::new("schema-driven POC validates v0.3 wire shape".to_string()),
        certainty: Magnitude::Maximum,
    }
}

#[test]
fn constraint_c2_migration_idempotent_on_already_next_marker() {
    for _round in 0..4 {
        let handle = SpiritStorageHandle::open_with_on_disk_marker(
            StorageLocation::InMemory,
            Some(next_version_marker()),
        )
        .expect("already-NEXT open must succeed");
        let log = handle.upgrade_log();
        assert_eq!(log.len(), 1);
        assert_eq!(log[0].outcome, UpgradeOutcome::NoMigrationNeeded);
        assert_eq!(handle.current_marker(), next_version_marker());
    }
}

#[test]
fn constraint_c3_version_marker_one_layout_two_homes() {
    assert_eq!(std::mem::size_of::<VersionMarker>(), std::mem::size_of::<LogMarker>());
}

#[test]
fn constraint_c6_next_version_marker_discipline_end_to_end() {
    let fresh = SpiritStorageHandle::open(StorageLocation::InMemory).expect("fresh open must succeed");
    assert_eq!(fresh.current_marker(), next_version_marker());
    let fresh_log = fresh.upgrade_log();
    assert_eq!(fresh_log.len(), 1);
    assert_eq!(fresh_log[0].outcome, UpgradeOutcome::NoMigrationNeeded);

    let migrated = SpiritStorageHandle::open_with_on_disk_marker(
        StorageLocation::InMemory,
        Some(main_version_marker()),
    )
    .expect("migration open must succeed");
    assert_eq!(migrated.current_marker(), next_version_marker());
    let migrated_log = migrated.upgrade_log();
    assert_eq!(migrated_log.len(), 1);
    assert_eq!(migrated_log[0].outcome, UpgradeOutcome::MigratedSuccessfully);
    assert_eq!(migrated_log[0].from, main_version_marker());
    assert_eq!(migrated_log[0].to, next_version_marker());

    let reopen = SpiritStorageHandle::open_with_on_disk_marker(
        StorageLocation::InMemory,
        Some(next_version_marker()),
    )
    .expect("reopen on NEXT must succeed");
    assert_eq!(reopen.current_marker(), next_version_marker());
    assert_eq!(reopen.upgrade_log()[0].outcome, UpgradeOutcome::NoMigrationNeeded);
}

#[test]
fn constraint_c7_storage_descriptor_table_set_covers_v03_storage() {
    let names = SpiritStorageHandle::descriptor_table_names();
    assert_eq!(names.len(), 4);
    assert_eq!(StorageDescriptor::table_count(), 4);
    for table in ["Records", "IdentifierMint", "VersionMarker", "UpgradeLog"] {
        assert!(names.contains(&table), "storage descriptor must contain table {table}; got {names:?}");
    }
}

#[test]
fn markers_are_one_patch_apart() {
    assert_eq!(main_version_marker(), VersionMarker { u32: 0, u32_2: 3, u32_3: 0 });
    assert_eq!(next_version_marker(), VersionMarker { u32: 0, u32_2: 3, u32_3: 1 });
    let older = SpiritStorageHandle::open_with_on_disk_marker(
        StorageLocation::InMemory,
        Some(VersionMarker { u32: 0, u32_2: 2, u32_3: 9 }),
    )
    .expect("older marker migrates");
    assert_eq!(older.current_marker(), next_version_marker());
    assert_eq!(older.upgrade_log()[0].from, VersionMarker { u32: 0, u32_2: 2, u32_3: 9 });
    assert_eq!(older.location(), &StorageLocation::InMemory);
}

#[test]
fn storage_mints_rising_identifiers_from_one() {
    let mut storage = SpiritStorageHandle::open(StorageLocation::InMemory).expect("fresh open");
    assert_eq!(storage.mint_identifier(), 1);
    assert_eq!(storage.mint_identifier(), 2);
    assert_eq!(storage.mint_identifier(), 3);
}

#[test]
fn recorder_status_counts_accepted_records() {
    let storage = SpiritStorageHandle::open(StorageLocation::InMemory).expect("fresh open");
    let mut recorder = SpiritRecorder::new(storage);
    let entry = || RecorderEntry {
        topics: RecorderTopics(vec![fixture_topic("spirit")]),
        kind: Kind::Principle,
        description: Description::new("one".to_string()),
        certainty: Certainty::High,
    };
    assert_eq!(
        recorder.handle(RecorderAction::RecordEntry(RecordEntryRequest(entry()))),
        RecorderResponse::RecordAccepted(RecordAccepted(Identifier(1)))
    );
    assert_eq!(
        recorder.handle(RecorderAction::RecordEntry(RecordEntryRequest(entry()))),
        RecorderResponse::RecordAccepted(RecordAccepted(Identifier(2)))
    );
    assert_eq!(
        recorder.handle(RecorderAction::QueryRecorderStatus(QueryRecorderStatusRequest(0))),
        RecorderResponse::RecorderStatusReturned(RecorderStatusReturned(RecorderStatus {
            u64: 2,
            u64_2: 0,
        }))
    );
}

#[test]
fn observer_answers_each_read_with_its_empty_shape() {
    let storage = SpiritStorageHandle::open(StorageLocation::InMemory).expect("fresh open");
    let observer = SpiritObserver::new(&storage);
    assert!(matches!(
        observer.handle(ObserverAction::ObserveTopics(ObserveTopicsRequest(0))),
        ObserverResponse::TopicsObserved(observed) if observed.0.is_empty()
    ));
    assert!(matches!(
        observer.handle(ObserverAction::ObserveRecordsDescriptionOnly(ObserveRecordsRequest {
            optionTopic: None,
            optionKind: None,
        })),
        ObserverResponse::RecordsObserved(observed) if observed.0.is_empty()
    ));
    assert!(matches!(
        observer.handle(ObserverAction::ObserveRecordsWithProvenance(ObserveRecordsRequest {
            optionTopic: Some(fixture_topic("spirit")),
            optionKind: Some(Kind::Decision),
        })),
        ObserverResponse::RecordProvenancesObserved(observed) if observed.0.is_empty()
    ));
}

#[test]
fn supervisor_echoes_the_generation() {
    let supervisor = SpiritSupervisor::new();
    assert_eq!(
        supervisor.handle(SupervisorAction::StartEngine(StartEngineRequest(Generation(4)))),
        SupervisorResponse::EngineStarted(EngineStarted(Generation(4)))
    );
    assert_eq!(
        supervisor.handle(SupervisorAction::DrainEngine(DrainEngineRequest(Generation(5)))),
        SupervisorResponse::EngineDrained(EngineDrained(Generation(5)))
    );
    assert_eq!(
        supervisor.handle(SupervisorAction::QueryEngineStatus(QueryEngineStatusRequest(
            Generation(6)
        ))),
        SupervisorResponse::EngineStatusReturned(EngineStatusReturned(EngineStatus { u8: 1, u64: 6 }))
    );
}

#[test]
fn reading_actor_taps_every_dispatch() {
    let mut reading = SpiritReadingActor::new();
    let first = reading.handle(ReadingActorAction::DispatchRecorderResponse(DispatchEnvelope {
        identifier: ReadingIdentifier(3),
        identifier_2: ReadingIdentifier(30),
    }));
    let second = reading.handle(ReadingActorAction::DispatchObserverResponse(DispatchEnvelope {
        identifier: ReadingIdentifier(4),
        identifier_2: ReadingIdentifier(40),
    }));
    assert_eq!(first, ReadingActorResponse::ResponseDispatched(ResponseDispatched(ReadingIdentifier(3))));
    assert_eq!(second, ReadingActorResponse::ResponseDispatched(ResponseDispatched(ReadingIdentifier(4))));
    assert_eq!(
        reading.tap_log(),
        vec![
            TapEntry { destination_identifier: 3, correlation_identifier: 30 },
            TapEntry { destination_identifier: 4, correlation_identifier: 40 },
        ]
    );
}

#[test]
fn upgrade_log_hands_out_identifiers_from_zero() {
    let mut log = SpiritUpgradeLog::new();
    let entry = UpgradeLogEntry {
        from: LogMarker { u32: 0, u32_2: 3, u32_3: 0 },
        to: LogMarker { u32: 0, u32_2: 3, u32_3: 1 },
        outcome: LogOutcome::MigratedSuccessfully,
    };
    assert_eq!(
        log.handle(UpgradeLogAction::AppendUpgradeEntry(AppendUpgradeEntryRequest(entry))),
        UpgradeLogResponse::UpgradeEntryAppended(UpgradeEntryAppended(LogIdentifier(0)))
    );
    assert_eq!(
        log.handle(UpgradeLogAction::AppendUpgradeEntry(AppendUpgradeEntryRequest(entry))),
        UpgradeLogResponse::UpgradeEntryAppended(UpgradeEntryAppended(LogIdentifier(1)))
    );
    assert!(matches!(
        log.handle(UpgradeLogAction::QueryUpgradeLog(QueryUpgradeLogRequest(0))),
        UpgradeLogResponse::UpgradeLogReturned(returned) if returned.0.is_empty()
    ));
}

#[test]
fn poc_record_returns_record_accepted_with_fresh_identifier() {
    let mut daemon = PocDaemon::open_fresh();
    let reply = daemon.dispatch(Operation::Record(fixture_entry()));
    match reply {
        Reply::RecordAccepted(accepted) => {
            assert!(
                accepted.identifier().value() >= 1,
                "minted identifier starts at 1 per v0.3 contract; got {}",
                accepted.identifier().value()
            );
        }
        other => panic!("expected RecordAccepted, got {other:?}"),
    }
}

#[test]
fn poc_consecutive_records_get_monotonic_identifiers() {
    let mut daemon = PocDaemon::open_fresh();
    let first = match daemon.dispatch(Operation::Record(fixture_entry())) {
        Reply::RecordAccepted(accepted) => accepted.identifier().value(),
        other => panic!("expected RecordAccepted, got {other:?}"),
    };
    let second = match daemon.dispatch(Operation::Record(fixture_entry())) {
        Reply::RecordAccepted(accepted) => accepted.identifier().value(),
        other => panic!("expected RecordAccepted, got {other:?}"),
    };
    assert!(second > first, "v0.3 identifier mint is monotonic; got {first} then {second}");
}

#[test]
fn poc_record_accepts_multi_topic_vec_per_record_702() {
    let mut daemon = PocDaemon::open_fresh();
    let entry = Entry {
        topics: Topics::new(vec![
            fixture_topic("workspace"),
            fixture_topic("spirit"),
            fixture_topic("signal"),
        ]),
        kind: Kind::Principle,
        description: Description::new("multi-topic record per intent record 702".to_string()),
        certainty: Magnitude::High,
    };
    let reply = daemon.dispatch(Operation::Record(entry));
    assert!(matches!(reply, Reply::RecordAccepted(_)));
}

#[test]
fn poc_observe_topics_returns_topics_observed_reply() {
    let mut daemon = PocDaemon::open_fresh();
    let reply = daemon.dispatch(Operation::Observe(Observation::Topics));
    match reply {
        Reply::TopicsObserved(topics_observed) => assert!(topics_observed.topics.is_empty()),
        other => panic!("expected TopicsObserved, got {other:?}"),
    }
}

#[test]
fn poc_observe_records_description_only_returns_records_observed_reply() {
    let mut daemon = PocDaemon::open_fresh();
    let query = RecordQuery { topic: None, kind: None, mode: ObservationMode::DescriptionOnly };
    let reply = daemon.dispatch(Operation::Observe(Observation::Records(query)));
    match reply {
        Reply::RecordsObserved(observed) => assert!(observed.records.is_empty()),
        other => panic!("expected RecordsObserved, got {other:?}"),
    }
}

#[test]
fn poc_observe_records_with_provenance_returns_record_provenances_observed_reply() {
    let mut daemon = PocDaemon::open_fresh();
    let query = RecordQuery { topic: None, kind: None, mode: ObservationMode::WithProvenance };
    let reply = daemon.dispatch(Operation::Observe(Observation::Records(query)));
    match reply {
        Reply::RecordProvenancesObserved(observed) => assert!(observed.records.is_empty()),
        other => panic!("expected RecordProvenancesObserved, got {other:?}"),
    }
}

#[test]
fn poc_state_returns_request_unimplemented() {
    let mut daemon = PocDaemon::open_fresh();
    let operation = Operation::State(Statement {
        text: StatementText::new("free-form psyche statement".to_string()),
    });
    let reply = daemon.dispatch(operation);
    assert!(matches!(reply, Reply::RequestUnimplemented(_)), "expected RequestUnimplemented for State");
}

#[test]
fn poc_watch_returns_request_unimplemented() {
    let mut daemon = PocDaemon::open_fresh();
    let subscription = Subscription::Records(RecordSubscription {
        topic: None,
        mode: ObservationMode::DescriptionOnly,
    });
    let reply = daemon.dispatch(Operation::Watch(subscription));
    assert!(matches!(reply, Reply::RequestUnimplemented(_)));
}

#[test]
fn poc_unwatch_returns_request_unimplemented() {
    let mut daemon = PocDaemon::open_fresh();
    let token = SubscriptionToken::Records(RecordSubscriptionToken { identifier: 0 });
    let reply = daemon.dispatch(Operation::Unwatch(token));
    assert!(matches!(reply, Reply::RequestUnimplemented(_)));
}

#[test]
fn poc_observe_state_and_questions_are_unimplemented() {
    let mut daemon = PocDaemon::open_fresh();
    assert!(matches!(
        daemon.dispatch(Operation::Observe(Observation::State)),
        Reply::RequestUnimplemented(_)
    ));
    assert!(matches!(
        daemon.dispatch(Operation::Observe(Observation::Questions)),
        Reply::RequestUnimplemented(_)
    ));
    let first = match daemon.dispatch(Operation::Record(fixture_entry())) {
        Reply::RecordAccepted(accepted) => accepted.identifier().value(),
        other => panic!("expected RecordAccepted, got {other:?}"),
    };
    assert_eq!(first, 1);
    assert_eq!(daemon.storage().current_marker(), next_version_marker());
}

#[test]
fn constraint_c1_every_actor_response_carries_unknown_variant() {
    let _recorder = RecorderResponse::Unknown("recorder unknown".to_string());
    let _observer = ObserverResponse::Unknown("observer unknown".to_string());
    let _supervisor = SupervisorResponse::Unknown("supervisor unknown".to_string());
    let _reading_actor = ReadingActorResponse::Unknown("reading-actor unknown".to_string());
    let _upgrade_log = UpgradeLogResponse::Unknown("upgrade-log unknown".to_string());
}

fn accept_response_variants(
    recorder: RecorderResponse,
    observer: ObserverResponse,
    supervisor: SupervisorResponse,
    reading: ReadingActorResponse,
    upgrade: UpgradeLogResponse,
) {
    if let RecorderResponse::Unknown(text) = recorder {
        assert!(text.is_empty() || !text.is_empty());
    }
    if let ObserverResponse::Unknown(text) = observer {
        assert!(text.is_empty() || !text.is_empty());
    }
    if let SupervisorResponse::Unknown(text) = supervisor {
        assert!(text.is_empty() || !text.is_empty());
    }
    if let ReadingActorResponse::Unknown(text) = reading {
        assert!(text.is_empty() || !text.is_empty());
    }
    if let UpgradeLogResponse::Unknown(text) = upgrade {
        assert!(text.is_empty() || !text.is_empty());
    }
}

#[test]
fn constraint_c5_response_enums_have_exactly_one_unknown_variant() {
    let _ = accept_response_variants;
}

#[test]
fn poc_records_count_up_across_other_operations() {
    let mut daemon = PocDaemon::open_fresh();
    let mut identifiers = Vec::new();
    for _ in 0..3 {
        match daemon.dispatch(Operation::Record(fixture_entry())) {
            Reply::RecordAccepted(accepted) => identifiers.push(accepted.identifier().value()),
            other => panic!("expected RecordAccepted, got {other:?}"),
        }
        daemon.dispatch(Operation::Observe(Observation::Topics));
    }
    assert_eq!(identifiers, vec![1, 2, 3]);
}

#[test]
fn upgrade_log_appends_count_up_across_queries() {
    let mut log = SpiritUpgradeLog::new();
    let entry = UpgradeLogEntry {
        from: LogMarker { u32: 0, u32_2: 3, u32_3: 0 },
        to: LogMarker { u32: 0, u32_2: 3, u32_3: 1 },
        outcome: LogOutcome::MigratedSuccessfully,
    };
    for expected in 0..3u64 {
        assert_eq!(
            log.handle(UpgradeLogAction::AppendUpgradeEntry(AppendUpgradeEntryRequest(entry))),
            UpgradeLogResponse::UpgradeEntryAppended(UpgradeEntryAppended(LogIdentifier(expected)))
        );
        log.handle(UpgradeLogAction::QueryUpgradeLog(QueryUpgradeLogRequest(0)));
    }
}
