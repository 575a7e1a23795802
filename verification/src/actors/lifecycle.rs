//! The owner plane: the engine generation it was started with, the
//! identities registered with it, and the bootstrap-policy reload it passes
//! on to the policy plane.
//!
//! A reload needs the policy source read again, which happens at the edge:
//! routing a reload answers with the trace to hand to the policy plane, and
//! the plane's reply is finished with `finish_reload`.

use vstd::prelude::*;

use crate::policy::{MetaReply, PolicyPipelineReply};
use crate::trace::{ActorTrace, TraceAction, TraceNode};

verus! {

/// An engine generation.
#[derive(Debug, Clone, Copy, PartialEq, Eq, Structural)]
pub struct Generation(pub u64);

/// The name of a registered identity.
#[derive(Debug, PartialEq, Eq)]
pub struct IdentityName(String);

impl View for IdentityName {
    type V = Seq<char>;

    closed spec fn view(&self) -> Seq<char> {
        self.0@
    }
}

impl Clone for IdentityName {
    fn clone(&self) -> (name: Self)
        ensures
            name@ == self@,
    {
        IdentityName(self.0.clone())
    }
}

impl IdentityName {
    pub fn new(name: String) -> (identity: Self)
        ensures
            identity@ == name@,
    {
        IdentityName(name)
    }

    pub fn as_str(&self) -> (name: &str)
        ensures
            name@ == self@,
    {
        self.0.as_str()
    }

    pub fn same_as(&self, other: &IdentityName) -> (same: bool)
        ensures
            same == (self@ == other@),
    {
        self.0 == other.0
    }
}

/// The generation a plane was last started with; none once drained.
#[derive(Debug, Clone, Copy, Default, PartialEq, Eq, Structural)]
pub struct LifecycleState {
    pub generation: Option<Generation>,
}

pub open spec fn identity_views(names: Seq<IdentityName>) -> Seq<Seq<char>> {
    names.map_values(|name: IdentityName| name@)
}

/// The registered identities, each once, in registration order.
pub struct IdentityRegistry {
    names: Vec<IdentityName>,
}

/// `names` without `name`.
pub open spec fn without_name(names: Seq<Seq<char>>, name: Seq<char>) -> Seq<Seq<char>>
    decreases names.len(),
{
    if names.len() == 0 {
        names
    } else if names.last() == name {
        without_name(names.drop_last(), name)
    } else {
        without_name(names.drop_last(), name).push(names.last())
    }
}

pub proof fn lemma_without_name_members(names: Seq<Seq<char>>, name: Seq<char>, other: Seq<char>)
    ensures
        without_name(names, name).contains(other) == (names.contains(other) && other != name),
    decreases names.len(),
{
    if names.len() > 0 {
        let init = names.drop_last();
        lemma_without_name_members(init, name, other);
        let rest = without_name(init, name);
        if names.contains(other) && other != name {
            let i = choose|i: int| 0 <= i < names.len() && names[i] == other;
            if i < init.len() {
                assert(init[i] == other);
                assert(init.contains(other));
                let k = choose|k: int| 0 <= k < rest.len() && rest[k] == other;
                if names.last() != name {
                    assert(rest.push(names.last())[k] == other);
                }
            } else {
                assert(names.last() == other);
                assert(rest.push(names.last())[rest.len() as int] == other);
            }
        }
        if without_name(names, name).contains(other) {
            if names.last() != name {
                let pushed = rest.push(names.last());
                let k = choose|k: int| 0 <= k < pushed.len() && pushed[k] == other;
                if k < rest.len() {
                    assert(rest[k] == other);
                    assert(rest.contains(other));
                    let i = choose|i: int| 0 <= i < init.len() && init[i] == other;
                    assert(names[i] == other);
                } else {
                    assert(names[names.len() - 1] == other);
                }
            } else {
                assert(rest.contains(other));
                let i = choose|i: int| 0 <= i < init.len() && init[i] == other;
                assert(names[i] == other);
            }
        }
    }
}

pub proof fn lemma_without_name_distinct(names: Seq<Seq<char>>, name: Seq<char>)
    requires
        names.no_duplicates(),
    ensures
        without_name(names, name).no_duplicates(),
    decreases names.len(),
{
    if names.len() > 0 {
        let init = names.drop_last();
        assert(init.no_duplicates());
        lemma_without_name_distinct(init, name);
        if names.last() != name {
            lemma_without_name_members(init, name, names.last());
            assert(!init.contains(names.last())) by {
                if init.contains(names.last()) {
                    let i = choose|i: int| 0 <= i < init.len() && init[i] == names.last();
                    assert(names[i] == names[names.len() - 1]);
                }
            }
        }
    }
}

impl IdentityRegistry {
    pub closed spec fn spec_names(&self) -> Seq<Seq<char>> {
        identity_views(self.names@)
    }

    /// No identity is registered twice.
    pub open spec fn wf(&self) -> bool {
        self.spec_names().no_duplicates()
    }

    pub fn new() -> (registry: Self)
        ensures
            registry.wf(),
            registry.spec_names() == Seq::<Seq<char>>::empty(),
    {
        let registry = IdentityRegistry { names: Vec::new() };
        assert(registry.spec_names() =~= Seq::<Seq<char>>::empty());
        registry
    }

    pub fn contains(&self, name: &IdentityName) -> (found: bool)
        ensures
            found == self.spec_names().contains(name@),
    {
        let mut index: usize = 0;
        while index < self.names.len()
            invariant
                index <= self.names@.len(),
                forall|i: int| 0 <= i < index ==> (#[trigger] self.names@[i])@ != name@,
            decreases self.names@.len() - index,
        {
            if self.names[index].same_as(name) {
                proof {
                    assert(self.spec_names()[index as int] == name@);
                }
                return true;
            }
            index = index + 1;
        }
        proof {
            if self.spec_names().contains(name@) {
                let i = choose|i: int| 0 <= i < self.spec_names().len() && self.spec_names()[i]
                    == name@;
                assert(self.names@[i]@ == name@);
            }
        }
        false
    }

    /// Registers `name` unless it is registered already.
    pub fn register(&mut self, name: &IdentityName)
        requires
            old(self).wf(),
        ensures
            final(self).wf(),
            final(self).spec_names() == if old(self).spec_names().contains(name@) {
                old(self).spec_names()
            } else {
                old(self).spec_names().push(name@)
            },
    {
        if !self.contains(name) {
            self.names.push(name.clone());
            proof {
                assert(self.spec_names() =~= old(self).spec_names().push(name@));
            }
        }
    }

    /// Retires every registration of `name`.
    pub fn retire(&mut self, name: &IdentityName)
        requires
            old(self).wf(),
        ensures
            final(self).wf(),
            final(self).spec_names() == without_name(old(self).spec_names(), name@),
            !final(self).spec_names().contains(name@),
    {
        let ghost before = self.spec_names();
        let mut kept: Vec<IdentityName> = Vec::new();
        let mut index: usize = 0;
        while index < self.names.len()
            invariant
                index <= self.names@.len(),
                before == identity_views(self.names@),
                identity_views(kept@) == without_name(before.take(index as int), name@),
            decreases self.names@.len() - index,
        {
            proof {
                assert(before.take(index + 1).drop_last() =~= before.take(index as int));
            }
            if !self.names[index].same_as(name) {
                kept.push(self.names[index].clone());
                proof {
                    assert(identity_views(kept@) =~= without_name(before.take(index + 1), name@));
                }
            }
            index = index + 1;
        }
        proof {
            assert(before.take(index as int) =~= before);
            lemma_without_name_distinct(before, name@);
            lemma_without_name_members(before, name@, name@);
        }
        self.names = kept;
    }
}

/// Requests of the owner channel.
#[derive(Debug, PartialEq, Eq)]
pub enum OwnerSpiritRequest {
    Start { generation: Generation },
    Drain,
    Reload,
    Register { name: IdentityName },
    Retire { name: IdentityName },
}

/// Replies of the owner channel.
#[derive(Debug, PartialEq, Eq)]
pub enum OwnerSpiritReply {
    Started { generation: Generation },
    DrainedAndStopped,
    IdentityRegistered { name: IdentityName },
    IdentityRetired { name: IdentityName },
    BootstrapPolicyReloaded,
    RequestUnimplemented(crate::actors::vocabulary::UnimplementedReason),
}

/// The owner plane's reply with the request's trace.
#[derive(Debug, PartialEq, Eq)]
pub struct OwnerPipelineReply {
    pub reply: OwnerSpiritReply,
    pub trace: ActorTrace,
}

/// What routing an owner request comes to: the reply, or a reload for the
/// policy plane with the trace to hand it.
#[derive(Debug, PartialEq, Eq)]
pub enum OwnerRouting {
    Replied(OwnerPipelineReply),
    ReloadPolicy(ActorTrace),
}

/// The owner reply a policy-plane reply stands for.
pub open spec fn owner_reply_for(reply: MetaReply) -> OwnerSpiritReply {
    match reply {
        MetaReply::BootstrapPolicyReloaded => OwnerSpiritReply::BootstrapPolicyReloaded,
        MetaReply::RequestUnimplemented(reason) => OwnerSpiritReply::RequestUnimplemented(
            match reason {
                crate::policy::UnimplementedReason::NotBuiltYet => crate::actors::vocabulary::UnimplementedReason::NotBuiltYet,
                crate::policy::UnimplementedReason::DependencyNotReady => crate::actors::vocabulary::UnimplementedReason::DependencyNotReady,
            },
        ),
    }
}

/// The owner plane.
pub struct OwnerPlane {
    lifecycle: LifecycleState,
    identities: IdentityRegistry,
}

impl OwnerPlane {
    pub closed spec fn spec_lifecycle(&self) -> LifecycleState {
        self.lifecycle
    }

    pub closed spec fn spec_identities(&self) -> Seq<Seq<char>> {
        self.identities.spec_names()
    }

    pub closed spec fn wf(&self) -> bool {
        self.identities.wf()
    }

    /// No identity is registered twice: registering a present name leaves
    /// the registry as it was, and retiring removes every copy.
    pub proof fn law_identities_are_distinct(&self)
        requires
            self.wf(),
        ensures
            self.spec_identities().no_duplicates(),
    {
    }

    pub fn new(lifecycle: LifecycleState) -> (plane: Self)
        ensures
            plane.wf(),
            plane.spec_lifecycle() == lifecycle,
            plane.spec_identities() == Seq::<Seq<char>>::empty(),
    {
        OwnerPlane { lifecycle, identities: IdentityRegistry::new() }
    }

    /// Routes one owner request. Start records the generation, drain clears
    /// it, register and retire maintain the identities, and reload is
    /// handed on to the policy plane.
    pub fn route(&mut self, request: OwnerSpiritRequest, trace: ActorTrace) -> (routing: OwnerRouting)
        requires
            old(self).wf(),
        ensures
            final(self).wf(),
            match request {
                OwnerSpiritRequest::Reload => {
                    &&& routing matches OwnerRouting::ReloadPolicy(handed)
                        && handed@ == trace@.push(("OwnerPlane"@, TraceAction::MessageReceived))
                    &&& final(self).spec_lifecycle() == old(self).spec_lifecycle()
                    &&& final(self).spec_identities() == old(self).spec_identities()
                },
                _ => routing matches OwnerRouting::Replied(replied) && {
                    &&& replied.trace@ == trace@.push(
                        ("OwnerPlane"@, TraceAction::MessageReceived),
                    ).push(("OwnerPlane"@, TraceAction::MessageReplied))
                    &&& match request {
                        OwnerSpiritRequest::Start { generation } => {
                            &&& replied.reply == OwnerSpiritReply::Started { generation }
                            &&& final(self).spec_lifecycle().generation == Some(generation)
                            &&& final(self).spec_identities() == old(self).spec_identities()
                        },
                        OwnerSpiritRequest::Drain => {
                            &&& replied.reply == OwnerSpiritReply::DrainedAndStopped
                            &&& final(self).spec_lifecycle().generation is None
                            &&& final(self).spec_identities() == old(self).spec_identities()
                        },
                        OwnerSpiritRequest::Register { name } => {
                            &&& replied.reply matches OwnerSpiritReply::IdentityRegistered {
                                name: registered,
                            } && registered@ == name@
                            &&& final(self).spec_lifecycle() == old(self).spec_lifecycle()
                            &&& final(self).spec_identities() == if old(
                                self,
                            ).spec_identities().contains(name@) {
                                old(self).spec_identities()
                            } else {
                                old(self).spec_identities().push(name@)
                            }
                        },
                        OwnerSpiritRequest::Retire { name } => {
                            &&& replied.reply matches OwnerSpiritReply::IdentityRetired {
                                name: retired,
                            } && retired@ == name@
                            &&& final(self).spec_lifecycle() == old(self).spec_lifecycle()
                            &&& final(self).spec_identities() == without_name(
                                old(self).spec_identities(),
                                name@,
                            )
                        },
                        OwnerSpiritRequest::Reload => true,
                    }
                },
            },
    {
        let mut trace = trace;
        trace.record(TraceNode::owner_plane(), TraceAction::MessageReceived);
        let reply = match request {
            OwnerSpiritRequest::Start { generation } => {
                self.lifecycle.generation = Some(generation);
                OwnerSpiritReply::Started { generation }
            },
            OwnerSpiritRequest::Drain => {
                self.lifecycle.generation = None;
                OwnerSpiritReply::DrainedAndStopped
            },
            OwnerSpiritRequest::Reload => {
                return OwnerRouting::ReloadPolicy(trace);
            },
            OwnerSpiritRequest::Register { name } => {
                self.identities.register(&name);
                OwnerSpiritReply::IdentityRegistered { name }
            },
            OwnerSpiritRequest::Retire { name } => {
                self.identities.retire(&name);
                OwnerSpiritReply::IdentityRetired { name }
            },
        };
        trace.record(TraceNode::owner_plane(), TraceAction::MessageReplied);
        OwnerRouting::Replied(OwnerPipelineReply { reply, trace })
    }

    /// Finishes a reload with the policy plane's reply: the owner plane
    /// replies with what the policy plane answered.
    pub fn finish_reload(&self, policy: PolicyPipelineReply) -> (reply: OwnerPipelineReply)
        ensures
            reply.reply == owner_reply_for(policy.reply),
            reply.trace@ == policy.trace@.push(("OwnerPlane"@, TraceAction::MessageReplied)),
    {
        let mut trace = policy.trace;
        trace.record(TraceNode::owner_plane(), TraceAction::MessageReplied);
        let reply = match policy.reply {
            MetaReply::BootstrapPolicyReloaded => OwnerSpiritReply::BootstrapPolicyReloaded,
            MetaReply::RequestUnimplemented(reason) => OwnerSpiritReply::RequestUnimplemented(
                match reason {
                    crate::policy::UnimplementedReason::NotBuiltYet => crate::actors::vocabulary::UnimplementedReason::NotBuiltYet,
                    crate::policy::UnimplementedReason::DependencyNotReady => crate::actors::vocabulary::UnimplementedReason::DependencyNotReady,
                },
            ),
        };
        OwnerPipelineReply { reply, trace }
    }

    /// The reply when the policy plane could not be reached: a dependency
    /// is not ready.
    pub fn policy_unreachable() -> (reply: OwnerPipelineReply)
        ensures
            reply.reply == OwnerSpiritReply::RequestUnimplemented(
                crate::actors::vocabulary::UnimplementedReason::DependencyNotReady,
            ),
            reply.trace@ == seq![("OwnerPlane"@, TraceAction::MessageReplied)],
    {
        let mut trace = ActorTrace::new();
        trace.record(TraceNode::owner_plane(), TraceAction::MessageReplied);
        proof {
            assert(trace@ =~= seq![("OwnerPlane"@, TraceAction::MessageReplied)]);
        }
        OwnerPipelineReply {
            reply: OwnerSpiritReply::RequestUnimplemented(
                crate::actors::vocabulary::UnimplementedReason::DependencyNotReady,
            ),
            trace,
        }
    }
}

} // verus!
