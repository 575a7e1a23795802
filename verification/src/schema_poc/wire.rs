//! The v0.3 ordinary-socket wire vocabulary the proof-of-concept daemon
//! serves: one operation in, one reply out.

use vstd::prelude::*;

use crate::record::{Description, Kind, Topic, Topics};

verus! {

/// Certainty on the v0.3 wire: seven steps, with no zero step.
#[derive(Debug, Clone, Copy, PartialEq, Eq, Hash, Structural)]
pub enum Magnitude {
    Minimum,
    VeryLow,
    Low,
    Medium,
    High,
    VeryHigh,
    Maximum,
}

#[derive(Debug, PartialEq, Eq)]
pub struct Entry {
    pub topics: Topics,
    pub kind: Kind,
    pub description: Description,
    pub certainty: Magnitude,
}

#[derive(Debug, PartialEq, Eq)]
pub struct StatementText(pub String);

impl StatementText {
    pub fn new(text: String) -> (statement: Self)
        ensures
            statement.0@ == text@,
    {
        StatementText(text)
    }
}

#[derive(Debug, PartialEq, Eq)]
pub struct Statement {
    pub text: StatementText,
}

#[derive(Debug, Clone, Copy, PartialEq, Eq, Hash, Structural)]
pub enum ObservationMode {
    DescriptionOnly,
    WithProvenance,
}

#[derive(Debug, PartialEq, Eq)]
pub struct RecordQuery {
    pub topic: Option<Topic>,
    pub kind: Option<Kind>,
    pub mode: ObservationMode,
}

#[derive(Debug, PartialEq, Eq)]
pub enum Observation {
    Topics,
    Records(RecordQuery),
    State,
    Questions,
}

#[derive(Debug, PartialEq, Eq)]
pub struct RecordSubscription {
    pub topic: Option<Topic>,
    pub mode: ObservationMode,
}

#[derive(Debug, PartialEq, Eq)]
pub enum Subscription {
    Records(RecordSubscription),
}

#[derive(Debug, Clone, Copy, PartialEq, Eq, Structural)]
pub struct RecordSubscriptionToken {
    pub identifier: u64,
}

#[derive(Debug, Clone, Copy, PartialEq, Eq, Structural)]
pub enum SubscriptionToken {
    Records(RecordSubscriptionToken),
}

/// One request on the ordinary socket.
#[derive(Debug, PartialEq, Eq)]
pub enum Operation {
    Record(Entry),
    State(Statement),
    Observe(Observation),
    Watch(Subscription),
    Unwatch(SubscriptionToken),
    Tap(Subscription),
    Untap(SubscriptionToken),
}

#[derive(Debug, Clone, Copy, PartialEq, Eq, Hash, Structural)]
pub struct RecordIdentifier(pub u64);

impl RecordIdentifier {
    pub fn new(value: u64) -> (identifier: Self)
        ensures
            identifier.0 == value,
    {
        RecordIdentifier(value)
    }

    pub fn value(&self) -> (value: u64)
        ensures
            value == self.0,
    {
        self.0
    }
}

#[derive(Debug, Clone, Copy, PartialEq, Eq, Structural)]
pub struct RecordAccepted {
    pub identifier: RecordIdentifier,
}

impl RecordAccepted {
    pub fn new(identifier: RecordIdentifier) -> (accepted: Self)
        ensures
            accepted.identifier == identifier,
    {
        RecordAccepted { identifier }
    }

    pub fn identifier(&self) -> (identifier: RecordIdentifier)
        ensures
            identifier == self.identifier,
    {
        self.identifier
    }
}

#[derive(Debug, PartialEq, Eq)]
pub struct TopicsObserved {
    pub topics: Vec<Topic>,
}

#[derive(Debug, PartialEq, Eq)]
pub struct RecordsObserved {
    pub records: Vec<Description>,
}

#[derive(Debug, PartialEq, Eq)]
pub struct RecordProvenancesObserved {
    pub records: Vec<Description>,
}

#[derive(Debug, Clone, Copy, PartialEq, Eq, Structural)]
pub enum UnimplementedReason {
    NotBuiltYet,
}

#[derive(Debug, Clone, Copy, PartialEq, Eq, Structural)]
pub struct RequestUnimplemented {
    pub reason: UnimplementedReason,
}

/// One reply on the ordinary socket.
#[derive(Debug, PartialEq, Eq)]
pub enum Reply {
    RecordAccepted(RecordAccepted),
    TopicsObserved(TopicsObserved),
    RecordsObserved(RecordsObserved),
    RecordProvenancesObserved(RecordProvenancesObserved),
    RequestUnimplemented(RequestUnimplemented),
}

} // verus!
