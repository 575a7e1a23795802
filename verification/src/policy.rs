//! The policy plane: holds the bootstrap policy and reloads it from its
//! source on request. Reading the source and parsing its text happen at the
//! edge; the plane decides what a reload outcome does to its state and what
//! it answers.

use vstd::prelude::*;

use crate::trace::{ActorTrace, TraceAction, TraceNode};

verus! {

/// Where the bootstrap policy text comes from: text built into the daemon,
/// or a file.
#[derive(Debug, Clone, PartialEq, Eq)]
pub enum BootstrapPolicySource {
    Embedded(&'static str),
    Path(String),
}

/// A source as the contracts see it: the embedded text or the file path.
pub enum PolicySourceView {
    Embedded(Seq<char>),
    Path(Seq<char>),
}

impl View for BootstrapPolicySource {
    type V = PolicySourceView;

    open spec fn view(&self) -> PolicySourceView {
        match self {
            BootstrapPolicySource::Embedded(text) => PolicySourceView::Embedded(text@),
            BootstrapPolicySource::Path(path) => PolicySourceView::Path(path@),
        }
    }
}

/// The bootstrap policy text built into the daemon: an empty policy.
pub open spec fn default_policy_text() -> Seq<char> {
    Seq::<char>::empty()
}

impl BootstrapPolicySource {
    pub fn embedded(value: &'static str) -> (source: Self)
        ensures
            source@ == PolicySourceView::Embedded(value@),
    {
        BootstrapPolicySource::Embedded(value)
    }

    pub fn path(value: String) -> (source: Self)
        ensures
            source@ == PolicySourceView::Path(value@),
    {
        BootstrapPolicySource::Path(value)
    }
}

impl Default for BootstrapPolicySource {
    fn default() -> (source: Self)
        ensures
            source@ == PolicySourceView::Embedded(default_policy_text()),
    {
        let text = "";
        proof {
            reveal_strlit("");
            assert(text@ =~= default_policy_text());
        }
        BootstrapPolicySource::embedded(text)
    }
}

/// The bootstrap policy.
#[derive(Debug, Clone, PartialEq, Eq)]
pub struct BootstrapPolicy {
    pub text: String,
}

/// Why a request could not be served yet.
#[derive(Debug, Clone, Copy, PartialEq, Eq, Structural)]
pub enum UnimplementedReason {
    NotBuiltYet,
    DependencyNotReady,
}

/// The meta channel's answer to a policy reload.
#[derive(Debug, Clone, Copy, PartialEq, Eq, Structural)]
pub enum MetaReply {
    BootstrapPolicyReloaded,
    RequestUnimplemented(UnimplementedReason),
}

/// The message asking the plane to reload.
#[derive(Debug, Clone, PartialEq, Eq)]
pub struct ReloadBootstrapPolicy {
    pub trace: ActorTrace,
}

/// The plane's answer with the request's trace.
#[derive(Debug, Clone, PartialEq, Eq)]
pub struct PolicyPipelineReply {
    pub reply: MetaReply,
    pub trace: ActorTrace,
}

/// The policy plane: the source it reads and the last policy that loaded.
pub struct PolicyPlane {
    source: BootstrapPolicySource,
    policy: Option<BootstrapPolicy>,
}

pub open spec fn policy_view(policy: Option<BootstrapPolicy>) -> Option<Seq<char>> {
    match policy {
        Some(loaded) => Some(loaded.text@),
        None => None,
    }
}

pub open spec fn loaded_view(loaded: Result<BootstrapPolicy, String>) -> Option<Seq<char>> {
    match loaded {
        Ok(policy) => Some(policy.text@),
        Err(_) => None,
    }
}

impl PolicyPlane {
    pub closed spec fn spec_source(&self) -> PolicySourceView {
        self.source@
    }

    /// The text of the policy held, if one loaded.
    pub closed spec fn spec_policy(&self) -> Option<Seq<char>> {
        policy_view(self.policy)
    }

    /// A plane over `source`, given the outcome of loading it: the policy
    /// when it loaded, none when it did not.
    pub fn new(source: BootstrapPolicySource, loaded: Result<BootstrapPolicy, String>) -> (plane:
        Self)
        ensures
            plane.spec_source() == source@,
            plane.spec_policy() == loaded_view(loaded),
    {
        let policy = match loaded {
            Ok(policy) => Some(policy),
            Err(_reason) => None,
        };
        PolicyPlane { source, policy }
    }

    pub fn source(&self) -> (source: &BootstrapPolicySource)
        ensures
            source@ == self.spec_source(),
    {
        &self.source
    }

    pub fn policy(&self) -> (policy: Option<&BootstrapPolicy>)
        ensures
            match policy {
                Some(loaded) => self.spec_policy() == Some(loaded.text@),
                None => self.spec_policy() is None,
            },
    {
        match &self.policy {
            Some(loaded) => Some(loaded),
            None => None,
        }
    }

    /// Reloads the policy given the outcome of reading and parsing the
    /// source again: a policy that loaded replaces the held one and the
    /// reload is confirmed; a failure keeps the held policy and answers
    /// that a dependency is not ready. The trace records the plane
    /// receiving and replying.
    pub fn reload(&mut self, message: ReloadBootstrapPolicy, loaded: Result<BootstrapPolicy, String>) -> (reply:
        PolicyPipelineReply)
        ensures
            final(self).spec_source() == old(self).spec_source(),
            reply.trace@ == message.trace@.push(("PolicyPlane"@, TraceAction::MessageReceived)).push(
                ("PolicyPlane"@, TraceAction::MessageReplied),
            ),
            match loaded {
                Ok(policy) => {
                    &&& reply.reply == MetaReply::BootstrapPolicyReloaded
                    &&& final(self).spec_policy() == Some(policy.text@)
                },
                Err(_) => {
                    &&& reply.reply == MetaReply::RequestUnimplemented(
                        UnimplementedReason::DependencyNotReady,
                    )
                    &&& final(self).spec_policy() == old(self).spec_policy()
                },
            },
    {
        let mut trace = message.trace;
        trace.record(TraceNode::policy_plane(), TraceAction::MessageReceived);
        let reply = match loaded {
            Ok(policy) => {
                self.policy = Some(policy);
                MetaReply::BootstrapPolicyReloaded
            },
            Err(_reason) => MetaReply::RequestUnimplemented(UnimplementedReason::DependencyNotReady),
        };
        trace.record(TraceNode::policy_plane(), TraceAction::MessageReplied);
        PolicyPipelineReply { reply, trace }
    }
}

} // verus!
