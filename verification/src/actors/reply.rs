//! The reply shaper and the reply text encoder's settings.

use vstd::prelude::*;

use crate::actors::vocabulary::{OperationKind, PipelineReply, SpiritReply, UnimplementedReason};
use crate::trace::{ActorTrace, TraceAction, TraceNode};

verus! {

/// Which reason an operation that is not served yet gets.
#[derive(Debug, Clone, Copy, PartialEq, Eq, Structural)]
pub struct UnimplementedPolicy {
    not_built: UnimplementedReason,
    integration_missing: UnimplementedReason,
}

impl UnimplementedPolicy {
    pub closed spec fn spec_not_built(self) -> UnimplementedReason {
        self.not_built
    }

    pub closed spec fn spec_integration_missing(self) -> UnimplementedReason {
        self.integration_missing
    }

    /// The reason for `operation`: recording waits on an integration,
    /// every other operation is not built yet.
    pub open spec fn spec_reason_for(self, operation: OperationKind) -> UnimplementedReason {
        match operation {
            OperationKind::Record => self.spec_integration_missing(),
            _ => self.spec_not_built(),
        }
    }

    pub fn reason_for(self, operation: OperationKind) -> (reason: UnimplementedReason)
        ensures
            reason == self.spec_reason_for(operation),
    {
        match operation {
            OperationKind::State
            | OperationKind::Observe
            | OperationKind::Watch
            | OperationKind::Unwatch
            | OperationKind::Remove
            | OperationKind::ChangeCertainty
            | OperationKind::ChangeRecord
            | OperationKind::CollectRemovalCandidates
            | OperationKind::Tap
            | OperationKind::Untap => self.not_built,
            OperationKind::Record => self.integration_missing,
        }
    }
}

impl Default for UnimplementedPolicy {
    fn default() -> (policy: Self)
        ensures
            policy.spec_not_built() == UnimplementedReason::NotBuiltYet,
            policy.spec_integration_missing() == UnimplementedReason::IntegrationNotLanded,
    {
        UnimplementedPolicy {
            not_built: UnimplementedReason::NotBuiltYet,
            integration_missing: UnimplementedReason::IntegrationNotLanded,
        }
    }
}

/// Asks the shaper for the reply to an operation that is not served yet.
pub struct ShapeUnimplemented {
    pub operation: OperationKind,
    pub trace: ActorTrace,
}

/// The reply shaper.
pub struct ReplyShaper {
    policy: UnimplementedPolicy,
}

impl ReplyShaper {
    pub closed spec fn spec_policy(&self) -> UnimplementedPolicy {
        self.policy
    }

    pub fn new(policy: UnimplementedPolicy) -> (shaper: Self)
        ensures
            shaper.spec_policy() == policy,
    {
        ReplyShaper { policy }
    }

    pub fn shape_unimplemented(&self, message: ShapeUnimplemented) -> (reply: PipelineReply)
        ensures
            reply.spec_reply() == SpiritReply::RequestUnimplemented(
                self.spec_policy().spec_reason_for(message.operation),
            ),
            reply.spec_trace()@ == message.trace@.push(
                ("ReplyShaper"@, TraceAction::MessageReceived),
            ).push(("ReplyShaper"@, TraceAction::MessageReplied)),
    {
        let mut trace = message.trace;
        trace.record(TraceNode::reply_shaper(), TraceAction::MessageReceived);
        let reply = SpiritReply::RequestUnimplemented(self.policy.reason_for(message.operation));
        trace.record(TraceNode::reply_shaper(), TraceAction::MessageReplied);
        PipelineReply::new(reply, trace)
    }
}

/// Whether reply text is written in canonical form.
#[derive(Debug, Clone, Copy, PartialEq, Eq, Structural)]
pub struct EncodingPolicy {
    canonical: bool,
}

impl EncodingPolicy {
    pub closed spec fn spec_canonical(self) -> bool {
        self.canonical
    }

    pub fn new(canonical: bool) -> (policy: Self)
        ensures
            policy.spec_canonical() == canonical,
    {
        EncodingPolicy { canonical }
    }

    pub fn is_canonical(self) -> (canonical: bool)
        ensures
            canonical == self.spec_canonical(),
    {
        self.canonical
    }
}

impl Default for EncodingPolicy {
    fn default() -> (policy: Self)
        ensures
            policy.spec_canonical(),
    {
        EncodingPolicy { canonical: true }
    }
}

/// The reply text encoder's start-up arguments.
#[derive(Debug, Clone, Copy, Default, PartialEq, Eq, Structural)]
pub struct EncoderArguments {
    pub policy: EncodingPolicy,
}

/// The reply text encoder; the text itself is produced at the edge.
pub struct ReplyTextEncoder {
    policy: EncodingPolicy,
}

impl ReplyTextEncoder {
    pub closed spec fn spec_policy(&self) -> EncodingPolicy {
        self.policy
    }

    pub fn new(arguments: EncoderArguments) -> (encoder: Self)
        ensures
            encoder.spec_policy() == arguments.policy,
    {
        ReplyTextEncoder { policy: arguments.policy }
    }

    pub fn policy(&self) -> (policy: EncodingPolicy)
        ensures
            policy == self.spec_policy(),
    {
        self.policy
    }
}

} // verus!
