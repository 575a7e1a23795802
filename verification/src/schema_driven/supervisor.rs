//! The supervisor actor: the top-of-process lifecycle authority. It owns
//! engine start, drain and the bootstrap-policy reload; the owner channel's
//! operations arrive here as supervisor actions.

use vstd::prelude::*;

verus! {

/// The supervisor's ACTION enum.
#[derive(Debug, Clone, PartialEq, Eq)]
pub enum SupervisorAction {
    StartEngine(StartEngine),
    DrainEngine(DrainEngine),
    ReloadBootstrapPolicy(ReloadBootstrapPolicy),
    RegisterOwner(RegisterOwner),
    RetireOwner(RetireOwner),
    QueryEngineStatus,
}

/// The supervisor's RESPONSE enum, with the universal `Unknown` floor.
#[derive(Debug, Clone, PartialEq, Eq)]
pub enum SupervisorResponse {
    EngineStarted(EngineState),
    EngineDrained(EngineState),
    BootstrapPolicyReloaded(PolicySnapshot),
    OwnerRegistered(u64),
    OwnerRetired(u64),
    EngineStatusReturned(EngineState),
    Unknown(String),
}

#[derive(Debug, Clone, Copy, PartialEq, Eq, Structural)]
pub struct StartEngine {
    pub reason: StartReason,
}

#[derive(Debug, Clone, Copy, PartialEq, Eq, Structural)]
pub struct DrainEngine {
    pub reason: DrainReason,
}

#[derive(Debug, Clone, PartialEq, Eq)]
pub struct ReloadBootstrapPolicy {
    pub source: String,
}

#[derive(Debug, Clone, Copy, PartialEq, Eq, Structural)]
pub struct RegisterOwner {
    pub identifier: u64,
}

#[derive(Debug, Clone, Copy, PartialEq, Eq, Structural)]
pub struct RetireOwner {
    pub identifier: u64,
}

#[derive(Debug, Clone, Copy, PartialEq, Eq, Structural)]
pub enum StartReason {
    FreshStart,
    Resume,
    HandoverFromPrevious,
}

#[derive(Debug, Clone, Copy, PartialEq, Eq, Structural)]
pub enum DrainReason {
    ShuttingDown,
    HandoverToNext,
    PolicyChange,
}

#[derive(Debug, Clone, Copy, PartialEq, Eq, Structural)]
pub enum EngineLifecycleState {
    Starting,
    Running,
    Draining,
    Drained,
    Halted,
}

#[derive(Debug, Clone, Copy, PartialEq, Eq, Structural)]
pub struct EngineState {
    pub lifecycle: EngineLifecycleState,
    pub uptime_micros: u64,
}

#[derive(Debug, Clone, PartialEq, Eq)]
pub struct PolicySnapshot {
    pub source: String,
}

/// Microseconds from `started` to `now`, or zero where the clock reads
/// earlier than the start.
pub open spec fn uptime_between(started: u64, now: u64) -> u64 {
    if now >= started {
        (now - started) as u64
    } else {
        0
    }
}

/// The lifecycle an action leaves the engine in when it was in `before`:
/// a start runs it, a drain drains it, anything else leaves it be.
pub open spec fn lifecycle_after_action(
    before: EngineLifecycleState,
    action: SupervisorAction,
) -> EngineLifecycleState {
    match action {
        SupervisorAction::StartEngine(_) => EngineLifecycleState::Running,
        SupervisorAction::DrainEngine(_) => EngineLifecycleState::Drained,
        _ => before,
    }
}

/// The lifecycle after `actions`, one after another, from `initial`.
pub open spec fn lifecycle_after(
    initial: EngineLifecycleState,
    actions: Seq<SupervisorAction>,
) -> EngineLifecycleState
    decreases actions.len(),
{
    if actions.len() == 0 {
        initial
    } else {
        lifecycle_after_action(lifecycle_after(initial, actions.drop_last()), actions.last())
    }
}

/// The supervisor engine: the lifecycle state, when the engine started and
/// the last bootstrap-policy source it was told of.
pub struct SpiritSupervisor {
    lifecycle_state: EngineLifecycleState,
    started_at: u64,
    policy_source: Option<String>,
}

impl SpiritSupervisor {
    pub closed spec fn lifecycle(&self) -> EngineLifecycleState {
        self.lifecycle_state
    }

    pub closed spec fn started_at(&self) -> u64 {
        self.started_at
    }

    pub closed spec fn policy_source(&self) -> Option<Seq<char>> {
        match self.policy_source {
            Some(source) => Some(source@),
            None => None,
        }
    }

    pub fn new() -> (supervisor: Self)
        ensures
            supervisor.lifecycle() == EngineLifecycleState::Starting,
            supervisor.started_at() == 0,
            supervisor.policy_source() == None::<Seq<char>>,
    {
        SpiritSupervisor {
            lifecycle_state: EngineLifecycleState::Starting,
            started_at: 0,
            policy_source: None,
        }
    }

    /// The match block between the supervisor's actions and its responses;
    /// `now_micros` is the wall clock in microseconds since the Unix epoch
    /// when the action arrives.
    pub fn handle(&mut self, action: SupervisorAction, now_micros: u64) -> (response:
        SupervisorResponse)
        ensures
            final(self).lifecycle() == lifecycle_after_action(old(self).lifecycle(), action),
            match action {
                SupervisorAction::StartEngine(_) => {
                    &&& response == SupervisorResponse::EngineStarted(
                        EngineState { lifecycle: EngineLifecycleState::Running, uptime_micros: 0 },
                    )
                    &&& final(self).lifecycle() == EngineLifecycleState::Running
                    &&& final(self).started_at() == now_micros
                    &&& final(self).policy_source() == old(self).policy_source()
                },
                SupervisorAction::DrainEngine(_) => {
                    &&& response == SupervisorResponse::EngineDrained(
                        EngineState {
                            lifecycle: EngineLifecycleState::Drained,
                            uptime_micros: uptime_between(old(self).started_at(), now_micros),
                        },
                    )
                    &&& final(self).lifecycle() == EngineLifecycleState::Drained
                    &&& final(self).started_at() == old(self).started_at()
                    &&& final(self).policy_source() == old(self).policy_source()
                },
                SupervisorAction::ReloadBootstrapPolicy(reload) => {
                    &&& response == SupervisorResponse::BootstrapPolicyReloaded(
                        PolicySnapshot { source: reload.source },
                    )
                    &&& final(self).lifecycle() == old(self).lifecycle()
                    &&& final(self).started_at() == old(self).started_at()
                    &&& final(self).policy_source() == Some(reload.source@)
                },
                SupervisorAction::RegisterOwner(register) => {
                    &&& response == SupervisorResponse::OwnerRegistered(register.identifier)
                    &&& final(self).lifecycle() == old(self).lifecycle()
                    &&& final(self).started_at() == old(self).started_at()
                    &&& final(self).policy_source() == old(self).policy_source()
                },
                SupervisorAction::RetireOwner(retire) => {
                    &&& response == SupervisorResponse::OwnerRetired(retire.identifier)
                    &&& final(self).lifecycle() == old(self).lifecycle()
                    &&& final(self).started_at() == old(self).started_at()
                    &&& final(self).policy_source() == old(self).policy_source()
                },
                SupervisorAction::QueryEngineStatus => {
                    &&& response == SupervisorResponse::EngineStatusReturned(
                        EngineState {
                            lifecycle: old(self).lifecycle(),
                            uptime_micros: uptime_between(old(self).started_at(), now_micros),
                        },
                    )
                    &&& final(self).lifecycle() == old(self).lifecycle()
                    &&& final(self).started_at() == old(self).started_at()
                    &&& final(self).policy_source() == old(self).policy_source()
                },
            },
    {
        match action {
            SupervisorAction::StartEngine(_start) => {
                self.started_at = now_micros;
                self.lifecycle_state = EngineLifecycleState::Running;
                SupervisorResponse::EngineStarted(
                    EngineState { lifecycle: EngineLifecycleState::Running, uptime_micros: 0 },
                )
            },
            SupervisorAction::DrainEngine(_drain) => {
                let uptime = self.uptime_at(now_micros);
                self.lifecycle_state = EngineLifecycleState::Drained;
                SupervisorResponse::EngineDrained(
                    EngineState { lifecycle: EngineLifecycleState::Drained, uptime_micros: uptime },
                )
            },
            SupervisorAction::ReloadBootstrapPolicy(reload) => {
                self.policy_source = Some(reload.source.clone());
                SupervisorResponse::BootstrapPolicyReloaded(PolicySnapshot { source: reload.source })
            },
            SupervisorAction::RegisterOwner(register) => SupervisorResponse::OwnerRegistered(
                register.identifier,
            ),
            SupervisorAction::RetireOwner(retire) => SupervisorResponse::OwnerRetired(
                retire.identifier,
            ),
            SupervisorAction::QueryEngineStatus => {
                let uptime = self.uptime_at(now_micros);
                SupervisorResponse::EngineStatusReturned(
                    EngineState { lifecycle: self.lifecycle_state, uptime_micros: uptime },
                )
            },
        }
    }

    fn uptime_at(&self, now_micros: u64) -> (uptime: u64)
        ensures
            uptime == uptime_between(self.started_at, now_micros),
    {
        if now_micros >= self.started_at {
            now_micros - self.started_at
        } else {
            0
        }
    }
}

/// Over any run of actions, the engine is in the state the last start or
/// drain left it in, and in the state it began in before either; a
/// supervisor that began `Starting` is never `Draining` or `Halted`.
pub proof fn law_lifecycle_follows_last_start_or_drain(
    supervisors: Seq<SpiritSupervisor>,
    actions: Seq<SupervisorAction>,
)
    requires
        supervisors.len() == actions.len() + 1,
        forall|i: int|
            0 <= i < actions.len() ==> #[trigger] supervisors[i + 1].lifecycle()
                == lifecycle_after_action(supervisors[i].lifecycle(), actions[i]),
    ensures
        forall|i: int|
            0 <= i < supervisors.len() ==> #[trigger] supervisors[i].lifecycle() == lifecycle_after(
                supervisors[0].lifecycle(),
                actions.take(i),
            ),
        supervisors[0].lifecycle() == EngineLifecycleState::Starting ==> forall|i: int|
            0 <= i < supervisors.len() ==> {
                let state = #[trigger] supervisors[i].lifecycle();
                state == EngineLifecycleState::Starting || state == EngineLifecycleState::Running
                    || state == EngineLifecycleState::Drained
            },
    decreases actions.len(),
{
    if actions.len() > 0 {
        let last = actions.len() - 1;
        let shorter = supervisors.drop_last();
        assert forall|i: int|
            0 <= i < actions.drop_last().len() implies #[trigger] shorter[i + 1].lifecycle()
                == lifecycle_after_action(shorter[i].lifecycle(), actions.drop_last()[i]) by {
            assert(supervisors[i + 1].lifecycle() == lifecycle_after_action(
                supervisors[i].lifecycle(),
                actions[i],
            ));
        }
        law_lifecycle_follows_last_start_or_drain(shorter, actions.drop_last());
        assert forall|i: int|
            0 <= i < supervisors.len() implies #[trigger] supervisors[i].lifecycle()
                == lifecycle_after(supervisors[0].lifecycle(), actions.take(i)) by {
            if i <= last {
                assert(shorter[i] == supervisors[i]);
                assert(actions.drop_last().take(i) =~= actions.take(i));
            } else {
                assert(shorter[last] == supervisors[last]);
                assert(actions.drop_last().take(last) =~= actions.take(last));
                assert(actions.take(i).drop_last() =~= actions.take(last));
                assert(supervisors[last + 1].lifecycle() == lifecycle_after_action(
                    supervisors[last].lifecycle(),
                    actions[last],
                ));
            }
        }
        if supervisors[0].lifecycle() == EngineLifecycleState::Starting {
            assert forall|i: int| 0 <= i < supervisors.len() implies {
                let state = #[trigger] supervisors[i].lifecycle();
                state == EngineLifecycleState::Starting || state == EngineLifecycleState::Running
                    || state == EngineLifecycleState::Drained
            } by {
                if i <= last {
                    assert(shorter[i] == supervisors[i]);
                } else {
                    assert(shorter[last] == supervisors[last]);
                    assert(supervisors[last + 1].lifecycle() == lifecycle_after_action(
                        supervisors[last].lifecycle(),
                        actions[last],
                    ));
                }
            }
        }
    }
}

impl Default for SpiritSupervisor {
    fn default() -> (supervisor: Self)
        ensures
            supervisor.lifecycle() == EngineLifecycleState::Starting,
            supervisor.started_at() == 0,
            supervisor.policy_source() == None::<Seq<char>>,
    {
        Self::new()
    }
}

} // verus!
