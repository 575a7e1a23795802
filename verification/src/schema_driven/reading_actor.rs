//! The reading actor: the response dispatcher and logging tap. Every
//! actor's response flows back through it; it forwards the response to its
//! destination and taps every response into the log.

use vstd::prelude::*;

use crate::schema_driven::keyed::{
    distinct_keys, has_key, lemma_without_key_absent, lemma_without_key_at,
    lemma_without_key_distinct, without_key,
};
use crate::schema_driven::observer::ObserverResponse;
use crate::schema_driven::recorder::RecorderResponse;
use crate::schema_driven::supervisor::SupervisorResponse;

verus! {

/// The reading actor's ACTION enum.
#[derive(Debug, Clone)]
pub enum ReadingActorAction {
    DispatchRecorderResponse(DispatchEnvelope, RecorderResponse),
    DispatchObserverResponse(DispatchEnvelope, ObserverResponse),
    DispatchSupervisorResponse(DispatchEnvelope, SupervisorResponse),
    AttachLogSink(AttachLogSink),
    DetachLogSink(DetachLogSink),
}

/// The reading actor's RESPONSE enum, with the universal `Unknown` floor.
#[derive(Debug, Clone, PartialEq, Eq)]
pub enum ReadingActorResponse {
    ResponseDispatched(DispatchOutcome),
    LogSinkAttached(u32),
    LogSinkDetached(u32),
    Unknown(String),
}

#[derive(Debug, Clone, Copy, PartialEq, Eq, Structural)]
pub struct DispatchEnvelope {
    pub correlation_token: u64,
    pub destination: DispatchDestination,
}

#[derive(Debug, Clone, Copy, PartialEq, Eq, Structural)]
pub enum DispatchDestination {
    WireReply,
    Subscriber,
    Tap,
    LogOnly,
}

#[derive(Debug, Clone, Copy, PartialEq, Eq, Structural)]
pub enum DispatchOutcome {
    Delivered,
    LogOnly,
    DroppedAtFilter,
}

#[derive(Debug, Clone, Copy, PartialEq, Eq, Structural)]
pub enum LogLevel {
    Trace,
    Debug,
    Info,
    Warn,
    Error,
}

#[derive(Debug, Clone, Copy, PartialEq, Eq, Structural)]
pub struct AttachLogSink {
    pub identifier: u32,
    pub level: LogLevel,
}

#[derive(Debug, Clone, Copy, PartialEq, Eq, Structural)]
pub struct DetachLogSink {
    pub identifier: u32,
}

/// One response as the tap saw it.
#[derive(Debug, Clone, Copy, PartialEq, Eq, Structural)]
pub struct TapCapture {
    pub correlation_token: u64,
    pub destination: DispatchDestination,
    pub source: TapSource,
}

#[derive(Debug, Clone, Copy, PartialEq, Eq, Structural)]
pub enum TapSource {
    Recorder,
    Observer,
    Supervisor,
}

/// What a dispatch to `destination` comes to: wire replies and subscribers
/// are delivered; taps and log-only destinations are only logged.
pub open spec fn outcome_for(destination: DispatchDestination) -> DispatchOutcome {
    match destination {
        DispatchDestination::WireReply | DispatchDestination::Subscriber => DispatchOutcome::Delivered,
        DispatchDestination::Tap | DispatchDestination::LogOnly => DispatchOutcome::LogOnly,
    }
}

/// The actor a dispatch action carries a response of, if it is one.
pub open spec fn dispatch_of(action: ReadingActorAction) -> Option<(DispatchEnvelope, TapSource)> {
    match action {
        ReadingActorAction::DispatchRecorderResponse(envelope, _) => Some(
            (envelope, TapSource::Recorder),
        ),
        ReadingActorAction::DispatchObserverResponse(envelope, _) => Some(
            (envelope, TapSource::Observer),
        ),
        ReadingActorAction::DispatchSupervisorResponse(envelope, _) => Some(
            (envelope, TapSource::Supervisor),
        ),
        _ => None,
    }
}

/// What the tap captures of one action: the response a dispatch carries,
/// and nothing of any other action.
pub open spec fn capture_of(action: ReadingActorAction) -> Seq<TapCapture> {
    match dispatch_of(action) {
        Some((envelope, source)) => seq![
            TapCapture {
                correlation_token: envelope.correlation_token,
                destination: envelope.destination,
                source,
            },
        ],
        None => Seq::empty(),
    }
}

/// What the tap captures of `actions`, in the order they arrive.
pub open spec fn captures_of(actions: Seq<ReadingActorAction>) -> Seq<TapCapture>
    decreases actions.len(),
{
    if actions.len() == 0 {
        Seq::empty()
    } else {
        captures_of(actions.drop_last()) + capture_of(actions.last())
    }
}

/// The reading actor: its log sinks (identifier -> level), the number of
/// delivered responses and every tap capture in order.
pub struct ReadingActor {
    log_sinks: Vec<(u32, LogLevel)>,
    delivered: u64,
    tap_captures: Vec<TapCapture>,
}

impl ReadingActor {
    pub closed spec fn log_sinks(&self) -> Seq<(u32, LogLevel)> {
        self.log_sinks@
    }

    pub closed spec fn delivered(&self) -> u64 {
        self.delivered
    }

    pub closed spec fn captures(&self) -> Seq<TapCapture> {
        self.tap_captures@
    }

    /// Each attached sink has an identifier of its own.
    pub open spec fn wf(&self) -> bool {
        distinct_keys(self.log_sinks())
    }

    pub fn new() -> (reading: Self)
        ensures
            reading.wf(),
            reading.log_sinks().len() == 0,
            reading.delivered() == 0,
            reading.captures().len() == 0,
    {
        ReadingActor { log_sinks: Vec::new(), delivered: 0, tap_captures: Vec::new() }
    }

    /// The match block between the reading actor's actions and its
    /// responses.
    pub fn handle(&mut self, action: ReadingActorAction) -> (response: ReadingActorResponse)
        requires
            old(self).wf(),
        ensures
            final(self).wf(),
            final(self).captures() == old(self).captures() + capture_of(action),
            match dispatch_of(action) {
                Some((envelope, source)) => {
                    &&& response == ReadingActorResponse::ResponseDispatched(
                        outcome_for(envelope.destination),
                    )
                    &&& final(self).captures() == old(self).captures().push(
                        TapCapture {
                            correlation_token: envelope.correlation_token,
                            destination: envelope.destination,
                            source,
                        },
                    )
                    &&& final(self).delivered() == if outcome_for(envelope.destination)
                        == DispatchOutcome::Delivered {
                        crate::schema_driven::observer::wrapping_add_u64(old(self).delivered(), 1)
                    } else {
                        old(self).delivered()
                    }
                    &&& final(self).log_sinks() == old(self).log_sinks()
                },
                None => {
                    &&& final(self).captures() == old(self).captures()
                    &&& final(self).delivered() == old(self).delivered()
                    &&& match action {
                        ReadingActorAction::AttachLogSink(attach) => {
                            &&& response == ReadingActorResponse::LogSinkAttached(
                                attach.identifier,
                            )
                            &&& final(self).log_sinks() == without_key(
                                old(self).log_sinks(),
                                attach.identifier,
                            ).push((attach.identifier, attach.level))
                        },
                        ReadingActorAction::DetachLogSink(detach) => {
                            &&& response == ReadingActorResponse::LogSinkDetached(
                                detach.identifier,
                            )
                            &&& final(self).log_sinks() == without_key(
                                old(self).log_sinks(),
                                detach.identifier,
                            )
                        },
                        _ => true,
                    }
                },
            },
    {
        match action {
            ReadingActorAction::DispatchRecorderResponse(envelope, _response) => {
                self.dispatch(envelope, TapSource::Recorder)
            },
            ReadingActorAction::DispatchObserverResponse(envelope, _response) => {
                self.dispatch(envelope, TapSource::Observer)
            },
            ReadingActorAction::DispatchSupervisorResponse(envelope, _response) => {
                self.dispatch(envelope, TapSource::Supervisor)
            },
            ReadingActorAction::AttachLogSink(attach) => self.handle_attach(attach),
            ReadingActorAction::DetachLogSink(detach) => self.handle_detach(detach),
        }
    }

    fn dispatch(&mut self, envelope: DispatchEnvelope, source: TapSource) -> (response:
        ReadingActorResponse)
        requires
            old(self).wf(),
        ensures
            final(self).wf(),
            response == ReadingActorResponse::ResponseDispatched(outcome_for(envelope.destination)),
            final(self).captures() == old(self).captures().push(
                TapCapture {
                    correlation_token: envelope.correlation_token,
                    destination: envelope.destination,
                    source,
                },
            ),
            final(self).delivered() == if outcome_for(envelope.destination)
                == DispatchOutcome::Delivered {
                crate::schema_driven::observer::wrapping_add_u64(old(self).delivered(), 1)
            } else {
                old(self).delivered()
            },
            final(self).log_sinks() == old(self).log_sinks(),
    {
        let outcome = match envelope.destination {
            DispatchDestination::WireReply | DispatchDestination::Subscriber => {
                DispatchOutcome::Delivered
            },
            DispatchDestination::Tap | DispatchDestination::LogOnly => DispatchOutcome::LogOnly,
        };
        self.tap_captures.push(
            TapCapture {
                correlation_token: envelope.correlation_token,
                destination: envelope.destination,
                source,
            },
        );
        if outcome == DispatchOutcome::Delivered {
            self.delivered = if self.delivered == u64::MAX {
                0
            } else {
                self.delivered + 1
            };
        }
        ReadingActorResponse::ResponseDispatched(outcome)
    }

    /// Drops the sink with `identifier`, if there is one.
    fn remove_sink(&mut self, identifier: u32)
        requires
            old(self).wf(),
        ensures
            final(self).wf(),
            final(self).log_sinks() == without_key(old(self).log_sinks(), identifier),
            !has_key(final(self).log_sinks(), identifier),
            final(self).delivered == old(self).delivered,
            final(self).tap_captures == old(self).tap_captures,
    {
        let ghost before = self.log_sinks@;
        proof {
            lemma_without_key_distinct(before, identifier);
        }
        let mut index: usize = 0;
        while index < self.log_sinks.len()
            invariant
                index <= self.log_sinks.len(),
                before == self.log_sinks@,
                before == old(self).log_sinks(),
                distinct_keys(before),
                distinct_keys(without_key(before, identifier)),
                !has_key(without_key(before, identifier), identifier),
                self.delivered == old(self).delivered,
                self.tap_captures == old(self).tap_captures,
                forall|k: int| 0 <= k < index ==> #[trigger] before[k].0 != identifier,
            decreases self.log_sinks.len() - index,
        {
            if self.log_sinks[index].0 == identifier {
                proof {
                    lemma_without_key_at(before, identifier, index as int);
                }
                self.log_sinks.remove(index);
                return;
            }
            index = index + 1;
        }
        proof {
            assert(!has_key(before, identifier));
            lemma_without_key_absent(before, identifier);
        }
    }

    fn handle_attach(&mut self, attach: AttachLogSink) -> (response: ReadingActorResponse)
        requires
            old(self).wf(),
        ensures
            final(self).wf(),
            response == ReadingActorResponse::LogSinkAttached(attach.identifier),
            final(self).log_sinks() == without_key(old(self).log_sinks(), attach.identifier).push(
                (attach.identifier, attach.level),
            ),
            final(self).delivered() == old(self).delivered(),
            final(self).captures() == old(self).captures(),
    {
        self.remove_sink(attach.identifier);
        let ghost before = self.log_sinks@;
        self.log_sinks.push((attach.identifier, attach.level));
        proof {
            let after = self.log_sinks@;
            assert forall|i: int, j: int|
                0 <= i < after.len() && 0 <= j < after.len() && i != j implies #[trigger] after[i].0
                != #[trigger] after[j].0 by {
                if i < before.len() && j < before.len() {
                    assert(before[i].0 != before[j].0);
                } else if i < before.len() {
                    assert(before[i].0 == after[i].0);
                } else {
                    assert(before[j].0 == after[j].0);
                }
            }
        }
        ReadingActorResponse::LogSinkAttached(attach.identifier)
    }

    fn handle_detach(&mut self, detach: DetachLogSink) -> (response: ReadingActorResponse)
        requires
            old(self).wf(),
        ensures
            final(self).wf(),
            response == ReadingActorResponse::LogSinkDetached(detach.identifier),
            final(self).log_sinks() == without_key(old(self).log_sinks(), detach.identifier),
            final(self).delivered() == old(self).delivered(),
            final(self).captures() == old(self).captures(),
    {
        self.remove_sink(detach.identifier);
        ReadingActorResponse::LogSinkDetached(detach.identifier)
    }

    pub fn delivered_count(&self) -> (count: u64)
        ensures
            count == self.delivered(),
    {
        self.delivered
    }

    /// Every tap capture so far, oldest first.
    pub fn tap_captures(&self) -> (captures: Vec<TapCapture>)
        ensures
            captures@ == self.captures(),
    {
        let mut copy: Vec<TapCapture> = Vec::new();
        let mut index: usize = 0;
        while index < self.tap_captures.len()
            invariant
                index <= self.tap_captures.len(),
                copy@ == self.tap_captures@.take(index as int),
            decreases self.tap_captures.len() - index,
        {
            copy.push(self.tap_captures[index]);
            index = index + 1;
            proof {
                assert(copy@ =~= self.tap_captures@.take(index as int));
            }
        }
        proof {
            assert(self.tap_captures@.take(index as int) =~= self.tap_captures@);
        }
        copy
    }
}

/// Nothing is invisible: over any run of actions the tap holds, after what
/// it held before, one capture of every dispatched response, in the order
/// the responses were dispatched, and nothing else.
pub proof fn law_every_dispatch_is_tapped_in_order(
    readers: Seq<ReadingActor>,
    actions: Seq<ReadingActorAction>,
)
    requires
        readers.len() == actions.len() + 1,
        forall|i: int|
            0 <= i < actions.len() ==> #[trigger] readers[i + 1].captures() == readers[i].captures()
                + capture_of(actions[i]),
    ensures
        forall|i: int|
            0 <= i < readers.len() ==> #[trigger] readers[i].captures() == readers[0].captures()
                + captures_of(actions.take(i)),
    decreases actions.len(),
{
    if actions.len() > 0 {
        let last = actions.len() - 1;
        let shorter = readers.drop_last();
        assert forall|i: int|
            0 <= i < actions.drop_last().len() implies #[trigger] shorter[i + 1].captures()
                == shorter[i].captures() + capture_of(actions.drop_last()[i]) by {
            assert(readers[i + 1].captures() == readers[i].captures() + capture_of(actions[i]));
        }
        law_every_dispatch_is_tapped_in_order(shorter, actions.drop_last());
        assert forall|i: int|
            0 <= i < readers.len() implies #[trigger] readers[i].captures() == readers[0].captures()
                + captures_of(actions.take(i)) by {
            if i <= last {
                assert(shorter[i] == readers[i]);
                assert(actions.drop_last().take(i) =~= actions.take(i));
            } else {
                assert(shorter[last] == readers[last]);
                assert(actions.drop_last().take(last) =~= actions.take(last));
                assert(actions.take(i).drop_last() =~= actions.take(last));
                assert(actions.take(i).last() == actions[last]);
                assert(readers[last + 1].captures() == readers[last].captures() + capture_of(
                    actions[last],
                ));
                assert(readers[0].captures() + captures_of(actions.take(last)) + capture_of(
                    actions[last],
                ) =~= readers[0].captures() + (captures_of(actions.take(last)) + capture_of(
                    actions[last],
                )));
            }
        }
    }
}

impl Default for ReadingActor {
    fn default() -> (reading: Self)
        ensures
            reading.wf(),
            reading.log_sinks().len() == 0,
            reading.delivered() == 0,
            reading.captures().len() == 0,
    {
        Self::new()
    }
}

} // verus!
