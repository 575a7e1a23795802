//! The reading actor's internal channel: its action and response
//! vocabulary.

use vstd::prelude::*;

verus! {

#[derive(Debug, Clone, Copy, PartialEq, Eq, Hash, Structural)]
pub struct Identifier(pub u64);

/// Where a response goes (`identifier`) and which request it answers
/// (`identifier_2`).
#[derive(Debug, Clone, Copy, PartialEq, Eq, Structural)]
pub struct DispatchEnvelope {
    pub identifier: Identifier,
    pub identifier_2: Identifier,
}

#[derive(Debug, Clone, Copy, PartialEq, Eq, Structural)]
pub struct ResponseDispatched(pub Identifier);

/// The reading actor's ACTION enum.
#[derive(Debug, Clone, Copy, PartialEq, Eq, Structural)]
pub enum ReadingActorAction {
    DispatchRecorderResponse(DispatchEnvelope),
    DispatchObserverResponse(DispatchEnvelope),
}

/// The reading actor's RESPONSE enum, with the universal `Unknown` floor.
#[derive(Debug, Clone, PartialEq, Eq)]
pub enum ReadingActorResponse {
    ResponseDispatched(ResponseDispatched),
    Unknown(String),
}

} // verus!
