//! The reading actor: dispatches responses and taps every dispatch into
//! its log.

use vstd::prelude::*;

use crate::schema_poc::spirit_reading_actor::{
    DispatchEnvelope, Identifier, ReadingActorAction, ReadingActorResponse, ResponseDispatched,
};
use crate::vec_copy::copy_all;

verus! {

/// One dispatch as the tap saw it.
#[derive(Debug, Clone, Copy, PartialEq, Eq, Structural)]
pub struct TapEntry {
    pub destination_identifier: u64,
    pub correlation_identifier: u64,
}

pub open spec fn envelope_of(action: ReadingActorAction) -> DispatchEnvelope {
    match action {
        ReadingActorAction::DispatchRecorderResponse(envelope) => envelope,
        ReadingActorAction::DispatchObserverResponse(envelope) => envelope,
    }
}

/// The reading actor: its tap log, oldest first.
pub struct SpiritReadingActor {
    tap_log: Vec<TapEntry>,
}

impl SpiritReadingActor {
    pub closed spec fn taps(&self) -> Seq<TapEntry> {
        self.tap_log@
    }

    pub fn new() -> (reading: Self)
        ensures
            reading.taps().len() == 0,
    {
        SpiritReadingActor { tap_log: Vec::new() }
    }

    /// The match block between the reading actor's actions and its
    /// responses: every dispatch is answered with its destination and
    /// tapped into the log.
    pub fn handle(&mut self, action: ReadingActorAction) -> (response: ReadingActorResponse)
        ensures
            response == ReadingActorResponse::ResponseDispatched(
                ResponseDispatched(envelope_of(action).identifier),
            ),
            final(self).taps() == old(self).taps().push(
                TapEntry {
                    destination_identifier: envelope_of(action).identifier.0,
                    correlation_identifier: envelope_of(action).identifier_2.0,
                },
            ),
    {
        match action {
            ReadingActorAction::DispatchRecorderResponse(envelope) => self.dispatch(envelope),
            ReadingActorAction::DispatchObserverResponse(envelope) => self.dispatch(envelope),
        }
    }

    fn dispatch(&mut self, envelope: DispatchEnvelope) -> (response: ReadingActorResponse)
        ensures
            response == ReadingActorResponse::ResponseDispatched(
                ResponseDispatched(envelope.identifier),
            ),
            final(self).taps() == old(self).taps().push(
                TapEntry {
                    destination_identifier: envelope.identifier.0,
                    correlation_identifier: envelope.identifier_2.0,
                },
            ),
    {
        let Identifier(destination) = envelope.identifier;
        let Identifier(correlation) = envelope.identifier_2;
        self.tap_log.push(
            TapEntry { destination_identifier: destination, correlation_identifier: correlation },
        );
        ReadingActorResponse::ResponseDispatched(ResponseDispatched(Identifier(destination)))
    }

    /// Every tap so far, oldest first.
    pub fn tap_log(&self) -> (log: Vec<TapEntry>)
        ensures
            log@ == self.taps(),
    {
        copy_all(&self.tap_log)
    }
}

impl Default for SpiritReadingActor {
    fn default() -> (reading: Self)
        ensures
            reading.taps().len() == 0,
    {
        Self::new()
    }
}

} // verus!
