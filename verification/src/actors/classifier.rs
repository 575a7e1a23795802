//! The classifier plane: turns a raw psyche statement into a provisional
//! record under its fallback policy.

use vstd::prelude::*;

use crate::record::{Description, Entry, EntryView, Kind, Magnitude, Topic, Topics};
use crate::trace::{ActorTrace, TraceAction, TraceNode};

verus! {

/// A raw psyche statement.
#[derive(Debug, PartialEq, Eq)]
pub struct Statement {
    pub text: String,
}

/// The topic, kind and certainty a statement is classified under.
#[derive(Debug, PartialEq, Eq)]
pub struct ClassificationPolicy {
    fallback_topic: Topic,
    fallback_kind: Kind,
    fallback_certainty: Magnitude,
}

impl ClassificationPolicy {
    pub closed spec fn spec_topic(&self) -> Seq<char> {
        self.fallback_topic@
    }

    pub closed spec fn spec_kind(&self) -> Kind {
        self.fallback_kind
    }

    pub closed spec fn spec_certainty(&self) -> Magnitude {
        self.fallback_certainty
    }

    pub fn new(fallback_topic: Topic, fallback_kind: Kind, fallback_certainty: Magnitude) -> (policy:
        Self)
        ensures
            policy.spec_topic() == fallback_topic@,
            policy.spec_kind() == fallback_kind,
            policy.spec_certainty() == fallback_certainty,
    {
        ClassificationPolicy { fallback_topic, fallback_kind, fallback_certainty }
    }
}

impl Default for ClassificationPolicy {
    /// Unclassified clarifications at minimum certainty.
    fn default() -> (policy: Self)
        ensures
            policy.spec_topic() == "unclassified"@,
            policy.spec_kind() == Kind::Clarification,
            policy.spec_certainty() == Magnitude::Minimum,
    {
        ClassificationPolicy::new(
            Topic::new("unclassified".to_string()),
            Kind::Clarification,
            Magnitude::Minimum,
        )
    }
}

/// Asks the plane to classify a statement.
pub struct ClassifyStatement {
    pub statement: Statement,
    pub trace: ActorTrace,
}

/// The provisional record with the request's trace.
#[derive(Debug, PartialEq, Eq)]
pub struct ClassifiedEntry {
    pub entry: Entry,
    pub trace: ActorTrace,
}

/// The classifier plane.
pub struct ClassifierPlane {
    policy: ClassificationPolicy,
}

impl ClassifierPlane {
    pub closed spec fn spec_policy(&self) -> ClassificationPolicy {
        self.policy
    }

    pub fn new(policy: ClassificationPolicy) -> (plane: Self)
        ensures
            plane.spec_policy() == policy,
    {
        ClassifierPlane { policy }
    }

    /// The statement as a public record under the fallback topic, kind and
    /// certainty, its text as the description.
    pub fn classify(&self, message: ClassifyStatement) -> (classified: ClassifiedEntry)
        ensures
            classified.entry@ == (EntryView {
                topics: seq![self.spec_policy().spec_topic()],
                kind: self.spec_policy().spec_kind(),
                description: message.statement.text@,
                certainty: self.spec_policy().spec_certainty(),
                privacy: Magnitude::Zero,
            }),
            classified.trace@ == message.trace@.push(
                ("ClassifierPlane"@, TraceAction::MessageReceived),
            ).push(("ClassifierPlane"@, TraceAction::StatementClassified)),
    {
        let mut trace = message.trace;
        trace.record(TraceNode::classifier_plane(), TraceAction::MessageReceived);
        let entry = Entry {
            topics: Topics::single(self.policy.fallback_topic.clone()),
            kind: self.policy.fallback_kind,
            description: Description::new(message.statement.text),
            certainty: self.policy.fallback_certainty,
            privacy: Magnitude::Zero,
        };
        trace.record(TraceNode::classifier_plane(), TraceAction::StatementClassified);
        ClassifiedEntry { entry, trace }
    }
}

} // verus!
