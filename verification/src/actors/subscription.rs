//! The subscription plane: the open state and record subscriptions, keyed
//! by the tokens it hands out. Tokens of each kind count up from one.

use std::collections::BTreeMap;

use vstd::prelude::*;

use crate::actors::ordered_keys::lemma_integer_keys_ordered;
use crate::actors::vocabulary::{
    PipelineReply, RecordSubscription, RecordSubscriptionToken, SpiritReply, State,
    StateSubscriptionToken, SubscriptionSnapshot, SubscriptionToken,
};
use crate::store::{RecordSummary, summary_views};
use crate::trace::{ActorTrace, TraceAction, TraceNode};

verus! {

/// The next token of each kind.
#[derive(Debug, Clone, Copy, PartialEq, Eq, Structural)]
pub struct SubscriptionIdentifiers {
    pub next_state: u64,
    pub next_record: u64,
}

impl Default for SubscriptionIdentifiers {
    fn default() -> (identifiers: Self)
        ensures
            identifiers == (SubscriptionIdentifiers { next_state: 1, next_record: 1 }),
    {
        SubscriptionIdentifiers { next_state: 1, next_record: 1 }
    }
}

/// Opens a state subscription starting from `snapshot`.
pub struct OpenStateSubscription {
    pub snapshot: State,
    pub trace: ActorTrace,
}

/// Opens a record subscription starting from `snapshot`.
pub struct OpenRecordSubscription {
    pub subscription: RecordSubscription,
    pub snapshot: Vec<RecordSummary>,
    pub trace: ActorTrace,
}

/// Closes a state subscription.
pub struct RetractStateSubscription {
    pub token: StateSubscriptionToken,
    pub trace: ActorTrace,
}

/// Closes a record subscription.
pub struct RetractRecordSubscription {
    pub token: RecordSubscriptionToken,
    pub trace: ActorTrace,
}

/// The trace after the plane received, did `action`, and replied.
pub open spec fn subscription_trace(
    trace: Seq<(Seq<char>, TraceAction)>,
    action: TraceAction,
) -> Seq<(Seq<char>, TraceAction)> {
    trace.push(("SubscriptionPlane"@, TraceAction::MessageReceived)).push(
        ("SubscriptionPlane"@, action),
    ).push(("SubscriptionPlane"@, TraceAction::MessageReplied))
}

/// The subscription plane.
pub struct SubscriptionPlane {
    state: BTreeMap<u64, State>,
    records: BTreeMap<u64, RecordSubscription>,
    identifiers: SubscriptionIdentifiers,
}

impl SubscriptionPlane {
    /// The open state subscriptions: token to starting state.
    pub closed spec fn state_subscriptions(&self) -> Map<u64, State> {
        self.state@
    }

    /// The open record subscriptions: token to what they listen for.
    pub closed spec fn record_subscriptions(&self) -> Map<u64, RecordSubscription> {
        self.records@
    }

    pub closed spec fn spec_identifiers(&self) -> SubscriptionIdentifiers {
        self.identifiers
    }

    /// Every open subscription's token was handed out already.
    pub open spec fn wf(&self) -> bool {
        &&& forall|token: u64| #[trigger]
            self.state_subscriptions().contains_key(token) ==> token
                < self.spec_identifiers().next_state
        &&& forall|token: u64| #[trigger]
            self.record_subscriptions().contains_key(token) ==> token
                < self.spec_identifiers().next_record
    }

    pub fn new(identifiers: SubscriptionIdentifiers) -> (plane: Self)
        ensures
            plane.wf(),
            plane.state_subscriptions() == Map::<u64, State>::empty(),
            plane.record_subscriptions() == Map::<u64, RecordSubscription>::empty(),
            plane.spec_identifiers() == identifiers,
    {
        SubscriptionPlane { state: BTreeMap::new(), records: BTreeMap::new(), identifiers }
    }

    /// Opens a state subscription under the next state token.
    pub fn open_state(&mut self, message: OpenStateSubscription) -> (reply: PipelineReply)
        requires
            old(self).wf(),
            old(self).spec_identifiers().next_state < u64::MAX,
        ensures
            final(self).wf(),
            ({
                let token = old(self).spec_identifiers().next_state;
                &&& !old(self).state_subscriptions().contains_key(token)
                &&& final(self).state_subscriptions().dom() == old(
                    self,
                ).state_subscriptions().dom().insert(token)
                &&& final(self).state_subscriptions()[token]@ == message.snapshot@
                &&& forall|other: u64|
                    other != token && #[trigger] old(self).state_subscriptions().contains_key(
                        other,
                    ) ==> final(self).state_subscriptions()[other] == old(
                        self,
                    ).state_subscriptions()[other]
                &&& final(self).record_subscriptions() == old(self).record_subscriptions()
                &&& final(self).spec_identifiers() == (SubscriptionIdentifiers {
                    next_state: (token + 1) as u64,
                    ..old(self).spec_identifiers()
                })
                &&& reply.spec_reply() matches SpiritReply::SubscriptionOpened {
                    token: SubscriptionToken::State(opened),
                    snapshot: SubscriptionSnapshot::State(state),
                } && opened.identifier == token && state@ == message.snapshot@
                &&& reply.spec_trace()@ == subscription_trace(
                    message.trace@,
                    TraceAction::SubscriptionOpened,
                )
            }),
    {
        let ghost state_before = self.state@;
        let ghost records_before = self.records@;
        proof {
            lemma_integer_keys_ordered();
        }
        let mut trace = message.trace;
        trace.record(TraceNode::subscription_plane(), TraceAction::MessageReceived);
        let token = StateSubscriptionToken { identifier: self.identifiers.next_state };
        self.identifiers.next_state = self.identifiers.next_state + 1;
        self.state.insert(token.identifier, message.snapshot.clone());
        trace.record(TraceNode::subscription_plane(), TraceAction::SubscriptionOpened);
        trace.record(TraceNode::subscription_plane(), TraceAction::MessageReplied);
        proof {
            assert forall|t: u64| #[trigger] self.state@.contains_key(t) implies t
                < self.identifiers.next_state by {
                if state_before.contains_key(t) {
                    assert(old(self).state_subscriptions().contains_key(t));
                }
            }
            assert forall|t: u64| #[trigger] self.records@.contains_key(t) implies t
                < self.identifiers.next_record by {
                if records_before.contains_key(t) {
                    assert(old(self).record_subscriptions().contains_key(t));
                }
            }
        }
        PipelineReply::new(
            SpiritReply::SubscriptionOpened {
                token: SubscriptionToken::State(token),
                snapshot: SubscriptionSnapshot::State(message.snapshot),
            },
            trace,
        )
    }

    /// Opens a record subscription under the next record token.
    pub fn open_records(&mut self, message: OpenRecordSubscription) -> (reply: PipelineReply)
        requires
            old(self).wf(),
            old(self).spec_identifiers().next_record < u64::MAX,
        ensures
            final(self).wf(),
            ({
                let token = old(self).spec_identifiers().next_record;
                &&& !old(self).record_subscriptions().contains_key(token)
                &&& final(self).record_subscriptions() == old(self).record_subscriptions().insert(
                    token,
                    message.subscription,
                )
                &&& final(self).state_subscriptions() == old(self).state_subscriptions()
                &&& final(self).spec_identifiers() == (SubscriptionIdentifiers {
                    next_record: (token + 1) as u64,
                    ..old(self).spec_identifiers()
                })
                &&& reply.spec_reply() matches SpiritReply::SubscriptionOpened {
                    token: SubscriptionToken::Records(opened),
                    snapshot: SubscriptionSnapshot::Records(summaries),
                } && opened.identifier == token && summary_views(summaries@) == summary_views(
                    message.snapshot@,
                )
                &&& reply.spec_trace()@ == subscription_trace(
                    message.trace@,
                    TraceAction::SubscriptionOpened,
                )
            }),
    {
        let ghost state_before = self.state@;
        let ghost records_before = self.records@;
        proof {
            lemma_integer_keys_ordered();
        }
        let mut trace = message.trace;
        trace.record(TraceNode::subscription_plane(), TraceAction::MessageReceived);
        let token = RecordSubscriptionToken { identifier: self.identifiers.next_record };
        self.identifiers.next_record = self.identifiers.next_record + 1;
        self.records.insert(token.identifier, message.subscription);
        trace.record(TraceNode::subscription_plane(), TraceAction::SubscriptionOpened);
        trace.record(TraceNode::subscription_plane(), TraceAction::MessageReplied);
        proof {
            assert forall|t: u64| #[trigger] self.state@.contains_key(t) implies t
                < self.identifiers.next_state by {
                if state_before.contains_key(t) {
                    assert(old(self).state_subscriptions().contains_key(t));
                }
            }
            assert forall|t: u64| #[trigger] self.records@.contains_key(t) implies t
                < self.identifiers.next_record by {
                if records_before.contains_key(t) {
                    assert(old(self).record_subscriptions().contains_key(t));
                }
            }
        }
        PipelineReply::new(
            SpiritReply::SubscriptionOpened {
                token: SubscriptionToken::Records(token),
                snapshot: SubscriptionSnapshot::Records(message.snapshot),
            },
            trace,
        )
    }

    /// Closes the state subscription with the token, if it is open.
    pub fn retract_state(&mut self, message: RetractStateSubscription) -> (reply: PipelineReply)
        requires
            old(self).wf(),
        ensures
            final(self).wf(),
            final(self).state_subscriptions() == old(self).state_subscriptions().remove(
                message.token.identifier,
            ),
            final(self).record_subscriptions() == old(self).record_subscriptions(),
            final(self).spec_identifiers() == old(self).spec_identifiers(),
            reply.spec_reply() == (SpiritReply::SubscriptionRetracted {
                token: SubscriptionToken::State(message.token),
            }),
            reply.spec_trace()@ == subscription_trace(
                message.trace@,
                TraceAction::SubscriptionRetracted,
            ),
    {
        let ghost state_before = self.state@;
        let ghost records_before = self.records@;
        proof {
            lemma_integer_keys_ordered();
        }
        let mut trace = message.trace;
        trace.record(TraceNode::subscription_plane(), TraceAction::MessageReceived);
        self.state.remove(&message.token.identifier);
        trace.record(TraceNode::subscription_plane(), TraceAction::SubscriptionRetracted);
        trace.record(TraceNode::subscription_plane(), TraceAction::MessageReplied);
        proof {
            assert forall|t: u64| #[trigger] self.state@.contains_key(t) implies t
                < self.identifiers.next_state by {
                if state_before.contains_key(t) {
                    assert(old(self).state_subscriptions().contains_key(t));
                }
            }
            assert forall|t: u64| #[trigger] self.records@.contains_key(t) implies t
                < self.identifiers.next_record by {
                if records_before.contains_key(t) {
                    assert(old(self).record_subscriptions().contains_key(t));
                }
            }
        }
        PipelineReply::new(
            SpiritReply::SubscriptionRetracted { token: SubscriptionToken::State(message.token) },
            trace,
        )
    }

    /// Closes the record subscription with the token, if it is open.
    pub fn retract_records(&mut self, message: RetractRecordSubscription) -> (reply: PipelineReply)
        requires
            old(self).wf(),
        ensures
            final(self).wf(),
            final(self).record_subscriptions() == old(self).record_subscriptions().remove(
                message.token.identifier,
            ),
            final(self).state_subscriptions() == old(self).state_subscriptions(),
            final(self).spec_identifiers() == old(self).spec_identifiers(),
            reply.spec_reply() == (SpiritReply::SubscriptionRetracted {
                token: SubscriptionToken::Records(message.token),
            }),
            reply.spec_trace()@ == subscription_trace(
                message.trace@,
                TraceAction::SubscriptionRetracted,
            ),
    {
        let ghost state_before = self.state@;
        let ghost records_before = self.records@;
        proof {
            lemma_integer_keys_ordered();
        }
        let mut trace = message.trace;
        trace.record(TraceNode::subscription_plane(), TraceAction::MessageReceived);
        self.records.remove(&message.token.identifier);
        trace.record(TraceNode::subscription_plane(), TraceAction::SubscriptionRetracted);
        trace.record(TraceNode::subscription_plane(), TraceAction::MessageReplied);
        proof {
            assert forall|t: u64| #[trigger] self.state@.contains_key(t) implies t
                < self.identifiers.next_state by {
                if state_before.contains_key(t) {
                    assert(old(self).state_subscriptions().contains_key(t));
                }
            }
            assert forall|t: u64| #[trigger] self.records@.contains_key(t) implies t
                < self.identifiers.next_record by {
                if records_before.contains_key(t) {
                    assert(old(self).record_subscriptions().contains_key(t));
                }
            }
        }
        PipelineReply::new(
            SpiritReply::SubscriptionRetracted { token: SubscriptionToken::Records(message.token) },
            trace,
        )
    }
}

} // verus!
