//! The supervisor's internal channel: its action and response vocabulary.

use vstd::prelude::*;

verus! {

#[derive(Debug, Clone, Copy, PartialEq, Eq, Hash, Structural)]
pub struct Generation(pub u64);

#[derive(Debug, Clone, Copy, PartialEq, Eq, Structural)]
pub struct StartEngineRequest(pub Generation);

#[derive(Debug, Clone, Copy, PartialEq, Eq, Structural)]
pub struct DrainEngineRequest(pub Generation);

#[derive(Debug, Clone, Copy, PartialEq, Eq, Structural)]
pub struct QueryEngineStatusRequest(pub Generation);

#[derive(Debug, Clone, Copy, PartialEq, Eq, Structural)]
pub struct EngineStarted(pub Generation);

#[derive(Debug, Clone, Copy, PartialEq, Eq, Structural)]
pub struct EngineDrained(pub Generation);

#[derive(Debug, Clone, Copy, PartialEq, Eq, Structural)]
pub struct EngineStatus {
    pub u8: u8,
    pub u64: u64,
}

#[derive(Debug, Clone, Copy, PartialEq, Eq, Structural)]
pub struct EngineStatusReturned(pub EngineStatus);

/// The supervisor's ACTION enum.
#[derive(Debug, Clone, Copy, PartialEq, Eq, Structural)]
pub enum SupervisorAction {
    StartEngine(StartEngineRequest),
    DrainEngine(DrainEngineRequest),
    QueryEngineStatus(QueryEngineStatusRequest),
}

/// The supervisor's RESPONSE enum, with the universal `Unknown` floor.
#[derive(Debug, Clone, PartialEq, Eq)]
pub enum SupervisorResponse {
    EngineStarted(EngineStarted),
    EngineDrained(EngineDrained),
    EngineStatusReturned(EngineStatusReturned),
    Unknown(String),
}

} // verus!
