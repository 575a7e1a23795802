use persona_spirit::actors::record_store::RecordStore;
use persona_spirit::actors::vocabulary::{RecordSubscription, SpiritReply};
use persona_spirit::observation::RecordSubscriptionObservation;
use persona_spirit::record::{
    Date, Description, Entry, Kind, Magnitude, MagnitudeSelection, ObservationMode, RecordQuery,
    RecordedTimeSelection, Time, Topic, TopicSelection, Topics,
};
use persona_spirit::store::{RecordObservation, SpiritStore, StampedEntry, StoreLocation};
use persona_spirit::trace::{ActorTrace, TraceAction};

fn plane() -> RecordStore {
    RecordStore::new(SpiritStore::open(&StoreLocation::new(
        "/tmp/persona-spirit-record-store-plane.redb".to_string(),
    )))
}

fn stamped(topic: &str, description: &str, privacy: Magnitude) -> StampedEntry {
    StampedEntry::new(
        Entry {
            topics: Topics::single(Topic::new(topic.to_string())),
            kind: Kind::Decision,
            description: Description::new(description.to_string()),
            certainty: Magnitude::Maximum,
            privacy,
        },
        Date::new(2026, 5, 21),
        Time::new(10, 0, 0),
    )
}

fn labels(trace: &ActorTrace) -> Vec<(&'static str, TraceAction)> {
    trace.events().iter().map(|event| (event.node().label(), event.action())).collect()
}

#[test]
fn capture_entry_writes_through_the_writer_and_mints_an_identifier() {
    let mut plane = plane();
    let pipeline = plane
        .capture_entry(stamped("workspace", "first", Magnitude::Zero), ActorTrace::new())
        .expect("entry captured");
    let (reply, trace) = pipeline.into_parts();
    let SpiritReply::RecordAccepted(accepted) = reply else {
        panic!("expected RecordAccepted");
    };
    assert_eq!(
        labels(&trace),
        vec![
            ("RecordStore", TraceAction::MessageReceived),
            ("SemaWriter", TraceAction::MessageReceived),
            ("SemaWriter", TraceAction::RecordCommitted),
            ("RecordStore", TraceAction::MessageReplied),
        ]
    );
    let second = plane
        .capture_entry(stamped("workspace", "first", Magnitude::Zero), ActorTrace::new())
        .expect("repeated entry captured");
    let SpiritReply::RecordAccepted(again) = second.into_parts().0 else {
        panic!("expected RecordAccepted");
    };
    assert_ne!(accepted.identifier(), again.identifier());
}

#[test]
fn empty_topics_are_refused_without_touching_the_store() {
    let mut plane = plane();
    let entry = StampedEntry::new(
        Entry {
            topics: Topics::new(Vec::new()),
            kind: Kind::Decision,
            description: Description::new("no topic".to_string()),
            certainty: Magnitude::Maximum,
            privacy: Magnitude::Zero,
        },
        Date::new(2026, 5, 21),
        Time::new(10, 0, 0),
    );
    assert!(plane.capture_entry(entry, ActorTrace::new()).is_err());
    let snapshot = plane
        .read_record_snapshot(
            &RecordSubscriptionObservation::public(RecordSubscription {
                topic: None,
                mode: ObservationMode::SummaryOnly,
            }),
            ActorTrace::new(),
        )
        .expect("snapshot read");
    assert!(snapshot.records.is_empty());
}

#[test]
fn observation_and_snapshot_read_through_the_reader() {
    let mut plane = plane();
    plane
        .capture_entry(stamped("spirit", "public", Magnitude::Zero), ActorTrace::new())
        .expect("public captured");
    plane
        .capture_entry(stamped("spirit", "private", Magnitude::High), ActorTrace::new())
        .expect("private captured");
    plane
        .capture_entry(stamped("other", "elsewhere", Magnitude::Zero), ActorTrace::new())
        .expect("other captured");

    let pipeline = plane
        .observe_records(
            &RecordObservation {
                query: RecordQuery {
                    topic_selection: TopicSelection::partial(vec![Topic::new("spirit".to_string())]),
                    kind: None,
                    certainty_selection: MagnitudeSelection::Any,
                    recorded_time_selection: RecordedTimeSelection::Any,
                    privacy_selection: MagnitudeSelection::Any,
                    mode: ObservationMode::SummaryOnly,
                },
            },
            ActorTrace::new(),
        )
        .expect("records observed");
    let (reply, trace) = pipeline.into_parts();
    let SpiritReply::RecordsObserved(summaries) = reply else {
        panic!("expected summaries");
    };
    assert_eq!(summaries.len(), 2);
    assert_eq!(
        labels(&trace),
        vec![
            ("RecordStore", TraceAction::MessageReceived),
            ("SemaReader", TraceAction::MessageReceived),
            ("SemaReader", TraceAction::RecordsRead),
            ("RecordStore", TraceAction::MessageReplied),
        ]
    );

    let snapshot = plane
        .read_record_snapshot(
            &RecordSubscriptionObservation::public(RecordSubscription {
                topic: Some(Topic::new("spirit".to_string())),
                mode: ObservationMode::SummaryOnly,
            }),
            ActorTrace::new(),
        )
        .expect("snapshot read");
    assert_eq!(snapshot.records.len(), 1);
    assert_eq!(snapshot.records[0].description.as_str(), "public");
}
