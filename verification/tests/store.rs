use persona_spirit::error::{Error, RequestRejectionReason};
use persona_spirit::handover::{spirit_contract_version, ComponentName};
use persona_spirit::record::{
    Date, Description, Entry, Kind, Magnitude, MagnitudeSelection, ObservationMode, RecordQuery,
    RecordedTime, RecordedTimeRange, RecordedTimeSelection, Time, Topic, TopicSelection, Topics,
};
use persona_spirit::store::{
    ObservedRecords, OutputTarget, RecordChange, RecordIdentifier, RecordMutationApplied,
    RecordObservation,
    RemovalCandidateCollection, RemovalCandidateSkipReason, SpiritStore, StampedEntry,
    StoreLocation,
};

fn store() -> SpiritStore {
    SpiritStore::open(&StoreLocation::new("/tmp/persona-spirit-test.redb".to_string()))
}

fn entry(topic: &str, kind: Kind, description: &str, certainty: Magnitude, privacy: Magnitude) -> Entry {
    Entry {
        topics: Topics::single(Topic::new(topic.to_string())),
        kind,
        description: Description::new(description.to_string()),
        certainty,
        privacy,
    }
}

fn stamped(entry: Entry, date: Date, time: Time) -> StampedEntry {
    StampedEntry::new(entry, date, time)
}

fn spirit_query(selection: RecordedTimeSelection) -> RecordObservation {
    RecordObservation {
        query: RecordQuery {
            topic_selection: TopicSelection::partial(vec![Topic::new("spirit".to_string())]),
            kind: None,
            certainty_selection: MagnitudeSelection::Any,
            recorded_time_selection: selection,
            privacy_selection: MagnitudeSelection::default_observation_privacy(),
            mode: ObservationMode::WithProvenance,
        },
    }
}

#[test]
fn stamped_entry_composes_entry_with_daemon_date_and_time() {
    let entry = entry("workspace", Kind::Decision, "composition", Magnitude::Maximum, Magnitude::Zero);
    let date = Date::new(2026, 5, 21);
    let time = Time::new(10, 45, 0);

    let stamped = StampedEntry::new(entry.clone(), date, time);

    assert_eq!(stamped.entry(), &entry);
    assert_eq!(stamped.date(), date);
    assert_eq!(stamped.time(), time);
}

#[test]
fn record_query_filters_by_recorded_time_range_after_topic_match() {
    let mut store = store();
    store
        .assert_entry(stamped(
            entry("spirit", Kind::Decision, "outside early", Magnitude::Maximum, Magnitude::Zero),
            Date::new(2026, 5, 28),
            Time::new(23, 59, 59),
        ))
        .expect("early record accepted");
    store
        .assert_entry(stamped(
            entry("spirit", Kind::Decision, "inside", Magnitude::Maximum, Magnitude::Zero),
            Date::new(2026, 5, 29),
            Time::new(12, 0, 0),
        ))
        .expect("inside record accepted");
    store
        .assert_entry(stamped(
            entry("other", Kind::Decision, "matching time wrong topic", Magnitude::Maximum, Magnitude::Zero),
            Date::new(2026, 5, 29),
            Time::new(13, 0, 0),
        ))
        .expect("other topic record accepted");

    let reply = store
        .observe_records(&spirit_query(RecordedTimeSelection::Between(RecordedTimeRange::new(
            RecordedTime::new(Date::new(2026, 5, 29), Time::new(0, 0, 0)),
            RecordedTime::new(Date::new(2026, 5, 29), Time::new(23, 59, 59)),
        ))))
        .expect("records observed");

    let ObservedRecords::RecordProvenancesObserved(records) = reply else {
        panic!("expected provenances");
    };
    assert_eq!(records.len(), 1);
    assert_eq!(records[0].summary.description, Description::new("inside".to_string()));
}

#[test]
fn spirit_store_does_not_reset_identifier_high_water_after_imported_record_removal() {
    let mut store = store();
    let imported_identifier = RecordIdentifier::new(1_000);
    store
        .import_migrated_record(
            imported_identifier,
            stamped(
                entry("spirit", Kind::Decision, "imported high identifier", Magnitude::Maximum, Magnitude::Zero),
                Date::new(2026, 6, 4),
                Time::new(9, 0, 0),
            ),
        )
        .expect("high identifier imported");
    store.remove_entry(imported_identifier).expect("high identifier removed");

    let accepted = store
        .assert_entry(stamped(
            entry("spirit", Kind::Principle, "after high removal", Magnitude::High, Magnitude::Zero),
            Date::new(2026, 6, 4),
            Time::new(9, 1, 0),
        ))
        .expect("post-removal record accepted");

    assert_eq!(accepted.identifier(), RecordIdentifier::new(1_001));
}

#[test]
fn spirit_store_handover_marker_keeps_removed_identifier_high_water() {
    let mut store = store();
    let imported_identifier = RecordIdentifier::new(1_000);
    store
        .import_migrated_record(
            imported_identifier,
            stamped(
                entry("spirit", Kind::Decision, "imported high identifier", Magnitude::Maximum, Magnitude::Zero),
                Date::new(2026, 6, 4),
                Time::new(9, 0, 0),
            ),
        )
        .expect("high identifier imported");
    store.remove_entry(imported_identifier).expect("high identifier removed");

    let marker = store
        .handover_marker(
            &ComponentName::new("persona-spirit".to_string()),
            spirit_contract_version(),
            1_780_000_000,
        )
        .expect("handover marker read");

    assert_eq!(marker.last_record_identifier, Some(1_000));
}

#[test]
fn spirit_store_does_not_reuse_minted_identifier_after_sparse_migration() {
    let mut store = store();
    store
        .import_migrated_record(
            RecordIdentifier::new(1_000),
            stamped(
                entry("spirit", Kind::Decision, "imported high identifier", Magnitude::Maximum, Magnitude::Zero),
                Date::new(2026, 6, 4),
                Time::new(9, 0, 0),
            ),
        )
        .expect("high identifier imported");
    let first_after_import = store
        .assert_entry(stamped(
            entry("spirit", Kind::Principle, "first after import", Magnitude::High, Magnitude::Zero),
            Date::new(2026, 6, 4),
            Time::new(9, 1, 0),
        ))
        .expect("first post-import record accepted");
    store
        .remove_entry(first_after_import.identifier())
        .expect("minted high identifier removed");

    let second_after_import = store
        .assert_entry(stamped(
            entry("spirit", Kind::Correction, "second after import", Magnitude::Medium, Magnitude::Zero),
            Date::new(2026, 6, 4),
            Time::new(9, 2, 0),
        ))
        .expect("second post-import record accepted");

    assert_eq!(first_after_import.identifier(), RecordIdentifier::new(1_001));
    assert_eq!(second_after_import.identifier(), RecordIdentifier::new(1_002));
}

#[test]
fn recent_record_query_keeps_newest_records_after_other_filters() {
    let mut store = store();
    for day in 1..=25u8 {
        store
            .assert_entry(stamped(
                entry("spirit", Kind::Decision, &format!("spirit day {day}"), Magnitude::Maximum, Magnitude::Zero),
                Date::new(2026, 5, day),
                Time::new(12, 0, 0),
            ))
            .expect("spirit record accepted");
        store
            .assert_entry(stamped(
                entry("other", Kind::Decision, &format!("other day {day}"), Magnitude::Maximum, Magnitude::Zero),
                Date::new(2026, 5, day),
                Time::new(12, 30, 0),
            ))
            .expect("other record accepted");
    }

    let reply = store
        .observe_records(&spirit_query(RecordedTimeSelection::Recent))
        .expect("records observed");

    let ObservedRecords::RecordProvenancesObserved(records) = reply else {
        panic!("expected provenances");
    };
    assert_eq!(records.len(), 15);
    assert_eq!(records[0].date, Date::new(2026, 5, 25));
    assert_eq!(records[14].date, Date::new(2026, 5, 11));
    assert!(records
        .iter()
        .all(|record| record.summary.topics.contains(&Topic::new("spirit".to_string()))));
}

#[test]
fn qualitative_depth_queries_keep_newest_records_at_larger_depths() {
    let mut store = store();
    for index in 1..=80u32 {
        let month = 5 + ((index - 1) / 28) as u8;
        let day = 1 + ((index - 1) % 28) as u8;
        store
            .assert_entry(stamped(
                entry("spirit", Kind::Decision, &format!("spirit item {index}"), Magnitude::Maximum, Magnitude::Zero),
                Date::new(2026, month, day),
                Time::new(12, 0, 0),
            ))
            .expect("spirit record accepted");
    }

    let provenances = |selection: RecordedTimeSelection| match store.observe_records(&spirit_query(selection)) {
        Ok(ObservedRecords::RecordProvenancesObserved(records)) => records,
        other => panic!("expected provenances, got {other:?}"),
    };
    let shallow = provenances(RecordedTimeSelection::Shallow);
    let recent = provenances(RecordedTimeSelection::Recent);
    let deep = provenances(RecordedTimeSelection::Deep);
    let very_deep = provenances(RecordedTimeSelection::VeryDeep);

    assert_eq!(shallow.len(), 5);
    assert_eq!(recent.len(), 15);
    assert_eq!(deep.len(), 30);
    assert_eq!(very_deep.len(), 80);
    assert_eq!(shallow[0].summary.description, Description::new("spirit item 80".to_string()));
    assert_eq!(recent[0].summary.description, Description::new("spirit item 80".to_string()));
    assert_eq!(deep[0].summary.description, Description::new("spirit item 80".to_string()));
    assert_eq!(very_deep[79].summary.description, Description::new("spirit item 1".to_string()));
}

fn summary_identifiers(reply: ObservedRecords) -> Vec<RecordIdentifier> {
    let ObservedRecords::RecordsObserved(records) = reply else {
        panic!("expected summary records");
    };
    records.iter().map(|record| record.identifier).collect()
}

#[test]
fn spirit_store_collects_only_exact_zero_candidates_before_removing_them() {
    let mut store = store();
    let rows = [
        (Kind::Decision, "first candidate", Magnitude::Zero, 0u8),
        (Kind::Decision, "weak but real", Magnitude::Minimum, 1),
        (Kind::Decision, "high record", Magnitude::High, 2),
        (Kind::Correction, "second candidate", Magnitude::Zero, 3),
    ];
    for (kind, description, certainty, minute) in rows {
        store
            .assert_entry(stamped(
                entry("spirit", kind, description, certainty, Magnitude::Zero),
                Date::new(2026, 6, 3),
                Time::new(9, minute, 0),
            ))
            .expect("record accepted");
    }

    let collected = store
        .collect_removal_candidates(&RemovalCandidateCollection::default_archive_database(), true)
        .expect("candidates collected");
    let remaining = store
        .observe_records(&RecordObservation {
            query: RecordQuery {
                topic_selection: TopicSelection::any(),
                kind: None,
                certainty_selection: MagnitudeSelection::Any,
                recorded_time_selection: RecordedTimeSelection::Any,
                privacy_selection: MagnitudeSelection::default_observation_privacy(),
                mode: ObservationMode::SummaryOnly,
            },
        })
        .expect("remaining records observed");

    assert_eq!(
        collected.removed_identifiers(),
        &[RecordIdentifier::new(1), RecordIdentifier::new(4)]
    );
    assert_eq!(
        collected
            .archived_records()
            .iter()
            .map(|record| record.description.as_str())
            .collect::<Vec<_>>(),
        vec!["first candidate", "second candidate"]
    );
    assert_eq!(
        summary_identifiers(remaining),
        vec![RecordIdentifier::new(2), RecordIdentifier::new(3)]
    );
}

#[test]
fn spirit_store_print_target_collects_without_archive_database() {
    let mut store = store();
    store
        .assert_entry(stamped(
            entry("spirit", Kind::Correction, "printed candidate", Magnitude::Zero, Magnitude::Zero),
            Date::new(2026, 6, 4),
            Time::new(12, 0, 0),
        ))
        .expect("candidate accepted");

    let collection = RemovalCandidateCollection::print_standard_output();
    assert!(!collection.output_target.writes_archive());
    let collected = store
        .collect_removal_candidates(&collection, false)
        .expect("print target collects candidates");
    let remaining = store
        .observe_records(&RecordObservation {
            query: RecordQuery::removal_candidates(ObservationMode::SummaryOnly),
        })
        .expect("remaining candidates observed");

    assert_eq!(
        collected
            .archived_records()
            .iter()
            .map(|record| record.description.as_str())
            .collect::<Vec<_>>(),
        vec!["printed candidate"]
    );
    assert_eq!(collected.removed_identifiers(), &[RecordIdentifier::new(1)]);
    assert!(summary_identifiers(remaining).is_empty());
}

#[test]
fn spirit_store_rejects_non_zero_collection_query_without_retracting() {
    let mut store = store();
    store
        .assert_entry(stamped(
            entry("spirit", Kind::Decision, "candidate", Magnitude::Zero, Magnitude::Zero),
            Date::new(2026, 6, 3),
            Time::new(10, 0, 0),
        ))
        .expect("candidate accepted");

    let error = store
        .collect_removal_candidates(
            &RemovalCandidateCollection::new(
                RecordQuery {
                    topic_selection: TopicSelection::any(),
                    kind: None,
                    certainty_selection: MagnitudeSelection::Any,
                    recorded_time_selection: RecordedTimeSelection::Any,
                    privacy_selection: MagnitudeSelection::default_observation_privacy(),
                    mode: ObservationMode::SummaryOnly,
                },
                OutputTarget::default_archive_database(),
            ),
            true,
        )
        .expect_err("broad query rejected");
    let candidates = store
        .observe_records(&RecordObservation {
            query: RecordQuery::removal_candidates(ObservationMode::SummaryOnly),
        })
        .expect("candidate still observed");

    assert!(matches!(
        error,
        Error::RequestRejected { reason: RequestRejectionReason::CollectionQueryNotExactZeroPublic }
    ));
    assert_eq!(summary_identifiers(candidates), vec![RecordIdentifier::new(1)]);
}

#[test]
fn spirit_store_rejects_private_collection_query_without_retracting() {
    let mut store = store();
    store
        .assert_entry(stamped(
            entry("spirit", Kind::Decision, "private candidate", Magnitude::Zero, Magnitude::High),
            Date::new(2026, 6, 4),
            Time::new(10, 30, 0),
        ))
        .expect("candidate accepted");

    let query = || RecordQuery {
        topic_selection: TopicSelection::any(),
        kind: None,
        certainty_selection: MagnitudeSelection::removal_candidates(),
        recorded_time_selection: RecordedTimeSelection::Any,
        privacy_selection: MagnitudeSelection::AtMost(Magnitude::High),
        mode: ObservationMode::SummaryOnly,
    };
    let error = store
        .collect_removal_candidates(
            &RemovalCandidateCollection::new(query(), OutputTarget::default_archive_database()),
            true,
        )
        .expect_err("private collection query rejected");
    let candidates = store
        .observe_records(&RecordObservation { query: query() })
        .expect("candidate still observed");

    assert!(matches!(
        error,
        Error::RequestRejected { reason: RequestRejectionReason::CollectionQueryNotExactZeroPublic }
    ));
    assert_eq!(summary_identifiers(candidates), vec![RecordIdentifier::new(1)]);
}

#[test]
fn spirit_store_archive_file_failure_preserves_candidates() {
    let mut store = store();
    store
        .assert_entry(stamped(
            entry("spirit", Kind::Decision, "candidate", Magnitude::Zero, Magnitude::Zero),
            Date::new(2026, 6, 3),
            Time::new(11, 0, 0),
        ))
        .expect("candidate accepted");

    let collected = store
        .collect_removal_candidates(
            &RemovalCandidateCollection::new(
                RecordQuery::removal_candidates(ObservationMode::SummaryOnly),
                OutputTarget::archive_database("/tmp/a-directory".to_string()),
            ),
            false,
        )
        .expect("failed archive produces skipped receipt");
    let candidates = store
        .observe_records(&RecordObservation {
            query: RecordQuery::removal_candidates(ObservationMode::SummaryOnly),
        })
        .expect("candidate still observed");

    assert!(collected.archived_records().is_empty());
    assert!(collected.removed_identifiers().is_empty());
    assert_eq!(collected.skipped_candidates().len(), 1);
    assert_eq!(collected.skipped_candidates()[0].reason, RemovalCandidateSkipReason::ArchiveFailed);
    assert_eq!(summary_identifiers(candidates), vec![RecordIdentifier::new(1)]);
}

#[test]
fn observe_topics_counts_public_topics_in_byte_order() {
    let mut store = store();
    let date = Date::new(2026, 5, 21);
    store
        .assert_entry(stamped(
            entry("workspace", Kind::Decision, "first", Magnitude::Maximum, Magnitude::Zero),
            date,
            Time::new(9, 0, 0),
        ))
        .expect("first entry accepted");
    store
        .assert_entry(stamped(
            Entry {
                topics: Topics::new(vec![
                    Topic::new("naming".to_string()),
                    Topic::new("workspace".to_string()),
                ]),
                kind: Kind::Decision,
                description: Description::new("second".to_string()),
                certainty: Magnitude::Maximum,
                privacy: Magnitude::Zero,
            },
            date,
            Time::new(9, 1, 0),
        ))
        .expect("second entry accepted");
    store
        .assert_entry(stamped(
            entry("hidden", Kind::Decision, "private", Magnitude::Maximum, Magnitude::Maximum),
            date,
            Time::new(9, 2, 0),
        ))
        .expect("private entry accepted");

    let observed = store.observe_topics().expect("topics observed");
    let lines: Vec<(String, u64)> = observed
        .topics
        .iter()
        .map(|count| (count.topic.as_str().to_string(), count.entries))
        .collect();
    assert_eq!(
        lines,
        vec![("naming".to_string(), 1), ("workspace".to_string(), 2)]
    );
}

#[test]
fn topic_counts_with_any_privacy_include_private_records() {
    let mut store = store();
    let date = Date::new(2026, 5, 21);
    store
        .assert_entry(stamped(
            entry("zeta", Kind::Decision, "public", Magnitude::Maximum, Magnitude::Zero),
            date,
            Time::new(9, 0, 0),
        ))
        .expect("public entry accepted");
    store
        .assert_entry(stamped(
            entry("Alpha", Kind::Decision, "private", Magnitude::Maximum, Magnitude::Maximum),
            date,
            Time::new(9, 1, 0),
        ))
        .expect("private entry accepted");

    let counts = store.topic_counts(MagnitudeSelection::Any);
    let topics: Vec<&str> = counts.iter().map(|count| count.topic.as_str()).collect();
    assert_eq!(topics, vec!["Alpha", "zeta"]);
    assert!(store.observe_topics().expect("observed").topics.len() == 1);
}

#[test]
fn observe_topics_of_an_empty_store_is_empty() {
    let store = store();
    assert!(store.observe_topics().expect("observed").topics.is_empty());
}

#[test]
fn change_record_rewrites_entry_and_keeps_identifier_and_time() {
    let mut store = store();
    let accepted = store
        .assert_entry(stamped(
            entry("spirit", Kind::Decision, "first wording", Magnitude::Low, Magnitude::Zero),
            Date::new(2026, 6, 5),
            Time::new(8, 0, 0),
        ))
        .expect("record accepted");
    let identifier = accepted.identifier();

    let applied = store
        .change_record(RecordChange {
            record_identifier: identifier,
            entry: entry("spirit", Kind::Correction, "second wording", Magnitude::High, Magnitude::Zero),
        })
        .expect("record changed");
    assert_eq!(applied, RecordMutationApplied { identifier });

    let observed = store
        .observe_records(&spirit_query(RecordedTimeSelection::Any))
        .expect("records observed");
    let ObservedRecords::RecordProvenancesObserved(records) = observed else {
        panic!("expected provenance records");
    };
    assert_eq!(records.len(), 1);
    assert_eq!(records[0].summary.identifier, identifier);
    assert_eq!(records[0].summary.kind, Kind::Correction);
    assert_eq!(records[0].summary.description, Description::new("second wording".to_string()));
    assert_eq!(records[0].summary.certainty, Magnitude::High);
    assert_eq!(records[0].date, Date::new(2026, 6, 5));
    assert_eq!(records[0].time, Time::new(8, 0, 0));
}

#[test]
fn change_record_of_an_unknown_identifier_is_rejected() {
    let mut store = store();
    let refused = store.change_record(RecordChange {
        record_identifier: RecordIdentifier::new(7),
        entry: entry("spirit", Kind::Decision, "nowhere", Magnitude::Low, Magnitude::Zero),
    });
    match refused {
        Err(Error::RequestRejected {
            reason: RequestRejectionReason::RecordNotStored { collection, identifier },
        }) => {
            assert_eq!(collection, "records");
            assert_eq!(identifier, 7);
        }
        other => panic!("expected RecordNotStored, got {other:?}"),
    }
    assert_eq!(store.records_count(), 0);
}
