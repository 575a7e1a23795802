use persona_spirit::daemon::StorePath;
use persona_spirit::error::Error;
use persona_spirit::migration::{
    migrate_v010_to_v020, migrate_v020_to_next, migrate_v030_to_v040, CodedRecord,
    MigratedRecord, MigrationCompleted, MigrationConfiguration, MigrationOutcome,
    V050IdentifierPolicy,
};
use persona_spirit::record::{
    Date, Description, Entry, Kind, Magnitude, MagnitudeSelection, ObservationMode, RecordQuery,
    RecordedTimeSelection, Time, Topic, TopicSelection, Topics,
};
use persona_spirit::store::{
    ObservedRecords, RecordIdentifier, RecordObservation, RecordProvenance, SpiritStore,
    StampedEntry, StoreLocation,
};

fn target() -> SpiritStore {
    SpiritStore::open(&StoreLocation::new("/tmp/persona-spirit-migration-target.redb".to_string()))
}

fn configuration() -> MigrationConfiguration {
    MigrationConfiguration::new(
        StorePath::new("/tmp/source.sema".to_string()),
        StorePath::new("/tmp/target.sema".to_string()),
    )
}

fn record(identifier: u64, topics: Vec<&str>, description: &str, date: Date, time: Time) -> MigratedRecord {
    MigratedRecord {
        identifier: RecordIdentifier::new(identifier),
        entry: StampedEntry::new(
            Entry {
                topics: Topics::new(topics.into_iter().map(|topic| Topic::new(topic.to_string())).collect()),
                kind: Kind::Decision,
                description: Description::new(description.to_string()),
                certainty: Magnitude::Maximum,
                privacy: Magnitude::Zero,
            },
            date,
            time,
        ),
    }
}

const MINIMUM_IDENTIFIER_CODE_LENGTH: usize = 4;
const MAXIMUM_IDENTIFIER_CODE_LENGTH: usize = 7;

fn assert_short_identifier(identifier: RecordIdentifier) {
    let code_length = identifier.code().len();
    assert!(
        (MINIMUM_IDENTIFIER_CODE_LENGTH..=MAXIMUM_IDENTIFIER_CODE_LENGTH).contains(&code_length),
        "identifier code should be 4-7 characters: {}",
        identifier.code()
    );
}

fn projected(
    identifier: u64,
    topic: &str,
    kind: Kind,
    description: &str,
    certainty: Magnitude,
    date: Date,
    time: Time,
) -> MigratedRecord {
    MigratedRecord {
        identifier: RecordIdentifier::new(identifier),
        entry: StampedEntry::new(
            Entry {
                topics: Topics::single(Topic::new(topic.to_string())),
                kind,
                description: Description::new(description.to_string()),
                certainty,
                privacy: Magnitude::Zero,
            },
            date,
            time,
        ),
    }
}

fn provenance_records(store: &SpiritStore) -> Vec<RecordProvenance> {
    let reply = store
        .observe_records(&RecordObservation {
            query: RecordQuery {
                topic_selection: TopicSelection::any(),
                kind: None,
                certainty_selection: MagnitudeSelection::Any,
                recorded_time_selection: RecordedTimeSelection::Any,
                privacy_selection: MagnitudeSelection::default_observation_privacy(),
                mode: ObservationMode::WithProvenance,
            },
        })
        .expect("records observed");
    let ObservedRecords::RecordProvenancesObserved(records) = reply else {
        panic!("expected provenances");
    };
    records
}

fn provenances(store: &SpiritStore) -> Vec<(u64, String, Date, Time)> {
    let reply = store
        .observe_records(&RecordObservation {
            query: RecordQuery {
                topic_selection: TopicSelection::any(),
                kind: None,
                certainty_selection: MagnitudeSelection::Any,
                recorded_time_selection: RecordedTimeSelection::Any,
                privacy_selection: MagnitudeSelection::Any,
                mode: ObservationMode::WithProvenance,
            },
        })
        .expect("records observed");
    let ObservedRecords::RecordProvenancesObserved(records) = reply else {
        panic!("expected provenances");
    };
    records
        .iter()
        .map(|record| {
            (
                record.summary.identifier.value,
                record.summary.description.as_str().to_string(),
                record.date,
                record.time,
            )
        })
        .collect()
}

#[test]
fn spirit_migration_preserves_timestamp_and_identifier_order() {
    let mut store = target();
    let outcome = configuration()
        .migrate(
            &mut store,
            vec![
                projected(
                    2,
                    "schema",
                    Kind::Principle,
                    "second summary",
                    Magnitude::Medium,
                    Date::new(2026, 5, 20),
                    Time::new(11, 30, 2),
                ),
                projected(
                    1,
                    "spirit",
                    Kind::Decision,
                    "first summary",
                    Magnitude::Maximum,
                    Date::new(2026, 5, 19),
                    Time::new(10, 15, 1),
                ),
            ],
        )
        .expect("migration succeeds");

    assert_eq!(outcome.records(), 2);
    let records = provenance_records(&store);
    assert_eq!(records.len(), 2);
    assert_eq!(records[0].summary.identifier, RecordIdentifier::new(1));
    assert_eq!(records[0].summary.topics, Topics::single(Topic::new("spirit".to_string())));
    assert_eq!(records[0].summary.kind, Kind::Decision);
    assert_eq!(records[0].summary.description, Description::new("first summary".to_string()));
    assert_eq!(records[0].summary.certainty, Magnitude::Maximum);
    assert_eq!(records[0].date, Date::new(2026, 5, 19));
    assert_eq!(records[0].time, Time::new(10, 15, 1));
    assert_eq!(records[1].summary.identifier, RecordIdentifier::new(2));
    assert_eq!(records[1].summary.topics, Topics::single(Topic::new("schema".to_string())));
    assert_eq!(records[1].summary.kind, Kind::Principle);
    assert_eq!(records[1].summary.description, Description::new("second summary".to_string()));
    assert_eq!(records[1].summary.certainty, Magnitude::Medium);
    assert_eq!(records[1].date, Date::new(2026, 5, 20));
    assert_eq!(records[1].time, Time::new(11, 30, 2));

    let accepted = store
        .assert_entry(StampedEntry::new(
            Entry {
                topics: Topics::single(Topic::new("next".to_string())),
                kind: Kind::Clarification,
                description: Description::new("post migration".to_string()),
                certainty: Magnitude::High,
                privacy: Magnitude::Zero,
            },
            Date::new(2026, 5, 21),
            Time::new(12, 45, 3),
        ))
        .expect("post-migration record accepted");
    // The identifier minted after a migration is the first one above every
    // identifier and every commit the store has counted. Which number that
    // is depends on how many commits the storage engine counts while a
    // database is opened, written and reopened: this store counts one per
    // write and none for opening, where an engine that commits on open
    // counts more. What holds whatever the engine counts is that the new
    // identifier is none of the migrated ones and has a short code.
    assert_ne!(accepted.identifier(), RecordIdentifier::new(1));
    assert_ne!(accepted.identifier(), RecordIdentifier::new(2));
    assert_short_identifier(accepted.identifier());
}

fn v040_record(
    identifier: u64,
    topics: Vec<&str>,
    kind: Kind,
    description: &str,
    certainty: Magnitude,
    time: Time,
) -> MigratedRecord {
    MigratedRecord {
        identifier: RecordIdentifier::new(identifier),
        entry: StampedEntry::new(
            Entry {
                topics: Topics::new(topics.into_iter().map(|topic| Topic::new(topic.to_string())).collect()),
                kind,
                description: Description::new(description.to_string()),
                certainty,
                privacy: Magnitude::Zero,
            },
            Date::new(2026, 6, 4),
            time,
        ),
    }
}

#[test]
fn spirit_privacy_migration_projects_v030_records_to_v040() {
    let mut store = target();
    let outcome = migrate_v030_to_v040(
        &mut store,
        vec![
            v040_record(
                1,
                vec!["spirit", "privacy"],
                Kind::Constraint,
                "privacy defaults open",
                Magnitude::Maximum,
                Time::new(12, 35, 0),
            ),
            v040_record(
                2,
                vec!["archive"],
                Kind::Decision,
                "second survives",
                Magnitude::High,
                Time::new(12, 36, 0),
            ),
        ],
    )
    .expect("migration succeeds");

    assert_eq!(outcome.records(), 2);
    let records = provenance_records(&store);
    assert_eq!(records[0].summary.identifier, RecordIdentifier::new(1));
    assert_eq!(records[0].summary.topics.as_slice().len(), 2);
    assert_eq!(records[0].summary.topics.as_slice()[0], Topic::new("spirit".to_string()));
    assert_eq!(records[0].summary.topics.as_slice()[1], Topic::new("privacy".to_string()));
    assert_eq!(records[0].summary.kind, Kind::Constraint);
    assert_eq!(
        records[0].summary.description,
        Description::new("privacy defaults open".to_string())
    );
    assert_eq!(records[0].summary.certainty, Magnitude::Maximum);
    assert_eq!(records[0].summary.privacy, Magnitude::Zero);
    assert_eq!(records[1].summary.identifier, RecordIdentifier::new(2));
    assert_eq!(records[1].summary.privacy, Magnitude::Zero);

    let accepted = store
        .assert_entry(StampedEntry::new(
            Entry {
                topics: Topics::single(Topic::new("post-migration".to_string())),
                kind: Kind::Clarification,
                description: Description::new("post privacy migration".to_string()),
                certainty: Magnitude::High,
                privacy: Magnitude::High,
            },
            Date::new(2026, 6, 4),
            Time::new(12, 37, 0),
        ))
        .expect("post-migration record accepted");
    // As after the timestamp-preserving migration: the new identifier is
    // fresh and short, whatever number the engine's commit counting gives.
    assert_ne!(accepted.identifier(), RecordIdentifier::new(1));
    assert_ne!(accepted.identifier(), RecordIdentifier::new(2));
    assert_short_identifier(accepted.identifier());
}

#[test]
fn spirit_migration_refuses_non_empty_target() {
    let mut store = target();
    store
        .assert_entry(record(9, vec!["spirit"], "already here", Date::new(2026, 5, 1), Time::new(0, 0, 0)).entry)
        .expect("existing record accepted");
    let error = migrate_v010_to_v020(
        &mut store,
        vec![record(1, vec!["spirit"], "old", Date::new(2026, 5, 19), Time::new(10, 0, 0))],
    )
    .expect_err("non-empty target refused");
    assert_eq!(
        error,
        Error::Migration {
            reason: "target database must be empty before timestamp-preserving migration".to_string()
        }
    );
    assert_eq!(provenances(&store).len(), 1);
}

#[test]
fn each_preserving_migration_names_its_refusal() {
    let filled = || {
        let mut store = target();
        store
            .assert_entry(record(1, vec!["spirit"], "kept", Date::new(2026, 5, 1), Time::new(0, 0, 0)).entry)
            .expect("record accepted");
        store
    };
    assert_eq!(
        migrate_v020_to_next(&mut filled(), Vec::new()),
        Err(Error::Migration {
            reason: "target next database must be empty before multi-topic migration".to_string()
        })
    );
    assert_eq!(
        migrate_v030_to_v040(&mut filled(), Vec::new()),
        Err(Error::Migration {
            reason: "target v0.4 database must be empty before privacy migration".to_string()
        })
    );
    assert_eq!(migrate_v030_to_v040(&mut target(), Vec::new()), Ok(MigrationOutcome::new(0)));
}

#[test]
fn spirit_next_migration_projects_v020_topic_to_topic_vector() {
    let mut store = target();
    let outcome = configuration()
        .migrate_v020_to_next(
            &mut store,
            vec![record(1, vec!["spirit", "signal"], "multi", Date::new(2026, 5, 25), Time::new(21, 15, 0))],
        )
        .expect("migration succeeds");
    assert_eq!(outcome.records(), 1);
    assert_eq!(
        provenances(&store),
        vec![(1, "multi".to_string(), Date::new(2026, 5, 25), Time::new(21, 15, 0))]
    );
}

#[test]
fn migration_rejects_records_without_topics() {
    let mut store = target();
    let error = configuration()
        .migrate_v030_to_v040(
            &mut store,
            vec![record(1, Vec::new(), "no topic", Date::new(2026, 5, 25), Time::new(21, 15, 0))],
        )
        .expect_err("record without topics rejected");
    assert!(matches!(error, Error::RequestRejected { .. }));
}

#[test]
fn spirit_identifier_migration_remints_ordinal_identifiers_and_maps_them() {
    let mut store = target();
    let (outcome, table) = configuration()
        .migrate_v040_to_v050(
            &mut store,
            vec![
                record(20, vec!["spirit"], "later", Date::new(2026, 5, 2), Time::new(0, 0, 0)),
                record(10, vec!["spirit"], "earlier", Date::new(2026, 5, 1), Time::new(0, 0, 0)),
            ],
        )
        .expect("identifier migration succeeds");
    assert_eq!(outcome.records(), 2);
    assert_eq!(table.rows.len(), 2);
    assert_eq!(table.rows[0].ordinal_identifier, 10);
    assert_eq!(table.rows[1].ordinal_identifier, 20);
    assert_eq!(table.rows[0].hash_identifier, RecordIdentifier::new(21));
    assert_eq!(table.rows[1].hash_identifier, RecordIdentifier::new(22));
    assert_eq!(
        provenances(&store),
        vec![
            (21, "earlier".to_string(), Date::new(2026, 5, 1), Time::new(0, 0, 0)),
            (22, "later".to_string(), Date::new(2026, 5, 2), Time::new(0, 0, 0)),
        ]
    );
}

#[test]
fn spirit_identifier_migration_randomizes_ordinal_identifiers_and_writes_nota_mapping_table() {
    let mut store = target();
    let (outcome, mapping) = configuration()
        .migrate_v040_to_v050(
            &mut store,
            vec![
                projected(
                    1,
                    "identity",
                    Kind::Decision,
                    "first ordinal",
                    Magnitude::Maximum,
                    Date::new(2026, 6, 4),
                    Time::new(13, 0, 0),
                ),
                MigratedRecord {
                    identifier: RecordIdentifier::new(2),
                    entry: StampedEntry::new(
                        Entry {
                            topics: Topics::single(Topic::new("identity".to_string())),
                            kind: Kind::Correction,
                            description: Description::new("second ordinal".to_string()),
                            certainty: Magnitude::High,
                            privacy: Magnitude::Zero,
                        },
                        Date::new(2026, 6, 4),
                        Time::new(13, 1, 0),
                    ),
                },
            ],
        )
        .expect("identifier migration succeeds");

    assert_eq!(outcome.records(), 2);
    assert_eq!(mapping.rows.len(), 2);
    assert_eq!(mapping.rows[0].ordinal_identifier, 1);
    assert_eq!(mapping.rows[1].ordinal_identifier, 2);
    assert_ne!(mapping.rows[0].hash_identifier, RecordIdentifier::new(1));
    assert_ne!(mapping.rows[1].hash_identifier, RecordIdentifier::new(2));
    assert_ne!(mapping.rows[0].hash_identifier, mapping.rows[1].hash_identifier);
    assert_short_identifier(mapping.rows[0].hash_identifier);
    assert_short_identifier(mapping.rows[1].hash_identifier);

    let records = provenance_records(&store);
    assert_eq!(records.len(), 2);
    let first = records
        .iter()
        .find(|record| record.summary.description == Description::new("first ordinal".to_string()))
        .expect("first record survives");
    let second = records
        .iter()
        .find(|record| record.summary.description == Description::new("second ordinal".to_string()))
        .expect("second record survives");
    assert_eq!(first.summary.identifier, mapping.rows[0].hash_identifier);
    assert_eq!(second.summary.identifier, mapping.rows[1].hash_identifier);
}

#[test]
fn identifier_codes_are_padded_base36() {
    assert_eq!(RecordIdentifier::new(0).code(), "0000");
    assert_eq!(RecordIdentifier::new(35).code(), "000z");
    assert_eq!(RecordIdentifier::new(481_261).code(), "abcd");
    assert_eq!(RecordIdentifier::new(78_364_164_095).code(), "zzzzzzz");
    assert_eq!(RecordIdentifier::new(78_364_164_096).code(), "10000000");
}

#[test]
fn spirit_short_identifier_migration_preserves_short_ids_and_remints_long_ids() {
    assert!(V050IdentifierPolicy::keeps_identifier("abcd"));
    assert!(V050IdentifierPolicy::keeps_identifier("abcdefg"));
    assert!(!V050IdentifierPolicy::keeps_identifier("abcdefgh"));
    let existing_short_identifier = RecordIdentifier::new(481_261);
    assert_eq!(existing_short_identifier.code(), "abcd");
    let existing_long_identifier = RecordIdentifier::new(4_738_381_338_321_616_896);
    let mut store = target();
    let (outcome, mapping) = configuration()
        .migrate_v050_to_v052(
            &mut store,
            vec![
                CodedRecord {
                    record: MigratedRecord {
                        identifier: existing_short_identifier,
                        entry: StampedEntry::new(
                            Entry {
                                topics: Topics::single(Topic::new("identity".to_string())),
                                kind: Kind::Decision,
                                description: Description::new("already short".to_string()),
                                certainty: Magnitude::High,
                                privacy: Magnitude::Zero,
                            },
                            Date::new(2026, 6, 4),
                            Time::new(17, 30, 0),
                        ),
                    },
                    code: "abcd".to_string(),
                },
                CodedRecord {
                    record: MigratedRecord {
                        identifier: existing_long_identifier,
                        entry: StampedEntry::new(
                            Entry {
                                topics: Topics::single(Topic::new("identity".to_string())),
                                kind: Kind::Constraint,
                                description: Description::new("still long".to_string()),
                                certainty: Magnitude::High,
                                privacy: Magnitude::Zero,
                            },
                            Date::new(2026, 6, 4),
                            Time::new(17, 31, 0),
                        ),
                    },
                    code: "20fzn9o0573n21mgujm".to_string(),
                },
            ],
        )
        .expect("short identifier migration succeeds");

    assert_eq!(outcome.records(), 2);
    assert_eq!(mapping.rows.len(), 2);
    let short_mapping = mapping
        .rows
        .iter()
        .find(|row| row.previous_identifier == existing_short_identifier)
        .expect("short mapping exists");
    assert_eq!(short_mapping.current_identifier, existing_short_identifier);
    let long_mapping = mapping
        .rows
        .iter()
        .find(|row| row.previous_identifier == existing_long_identifier)
        .expect("long mapping exists");
    assert_ne!(long_mapping.current_identifier, existing_long_identifier);
    assert_short_identifier(long_mapping.current_identifier);

    let records = provenance_records(&store);
    assert_eq!(records.len(), 2);
    for record in records {
        assert_short_identifier(record.summary.identifier);
    }
}
