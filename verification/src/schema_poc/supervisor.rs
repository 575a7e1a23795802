//! The supervisor actor: owns the engine lifecycle. Each request carries
//! the engine generation, and each answer names the generation it concerns.

use vstd::prelude::*;

use crate::schema_poc::spirit_supervisor::{
    EngineDrained, EngineStarted, EngineStatus, EngineStatusReturned, Generation,
    SupervisorAction, SupervisorResponse,
};

verus! {

/// The status code the supervisor reports for a running engine.
pub open spec fn running_status_code() -> u8 {
    1
}

/// What the supervisor answers to `action`.
pub open spec fn supervisor_answer(action: SupervisorAction) -> SupervisorResponse {
    match action {
        SupervisorAction::StartEngine(request) => SupervisorResponse::EngineStarted(
            EngineStarted(request.0),
        ),
        SupervisorAction::DrainEngine(request) => SupervisorResponse::EngineDrained(
            EngineDrained(request.0),
        ),
        SupervisorAction::QueryEngineStatus(request) => SupervisorResponse::EngineStatusReturned(
            EngineStatusReturned(EngineStatus { u8: running_status_code(), u64: request.0.0 }),
        ),
    }
}

#[derive(Debug, Clone, Copy, Default)]
pub struct SpiritSupervisor;

impl SpiritSupervisor {
    pub fn new() -> (supervisor: Self) {
        SpiritSupervisor
    }

    /// The match block between the supervisor's actions and its responses.
    pub fn handle(&self, action: SupervisorAction) -> (response: SupervisorResponse)
        ensures
            response == supervisor_answer(action),
    {
        match action {
            SupervisorAction::StartEngine(request) => {
                let generation = request.0;
                SupervisorResponse::EngineStarted(EngineStarted(generation))
            },
            SupervisorAction::DrainEngine(request) => {
                let generation = request.0;
                SupervisorResponse::EngineDrained(EngineDrained(generation))
            },
            SupervisorAction::QueryEngineStatus(request) => {
                let Generation(generation_value) = request.0;
                SupervisorResponse::EngineStatusReturned(
                    EngineStatusReturned(EngineStatus { u8: 1, u64: generation_value }),
                )
            },
        }
    }
}

} // verus!
