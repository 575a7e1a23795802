//! The daemon's error vocabulary and how each error classifies a failed
//! batch.

use vstd::prelude::*;

verus! {

/// Why a request was refused before it changed anything.
#[derive(Debug, Clone, PartialEq, Eq)]
pub enum RequestRejectionReason {
    /// An entry carried no topic.
    EmptyTopics,
    /// An entry named the same topic twice.
    DuplicateTopic { topic: String },
    /// The named record is not in the store.
    RecordNotStored { collection: String, identifier: u64 },
    /// A removal-candidate collection asked for more than exact-`Zero`
    /// certainty and exact-`Zero` privacy.
    CollectionQueryNotExactZeroPublic,
    /// The receiver cannot take the request in its present state: public
    /// record writes wait while a successor's handover is under way.
    ReceiverInternal,
}

/// Everything that can go wrong in persona-spirit.
#[derive(Debug, Clone, PartialEq, Eq)]
pub enum Error {
    WrongArgumentCount { program: String, found: usize },
    FlagArgument { program: String, argument: String },
    MissingSpiritSocket,
    MissingOwnerSpiritSocket,
    CommandLineRoute { reason: String },
    RuntimeNotImplemented { surface: &'static str, reason: &'static str },
    InvalidSpiritRequest { reason: String },
    InvalidSpiritReply { reason: String },
    InvalidDaemonConfiguration { reason: String },
    InputOutput { reason: String },
    SignalFrame { reason: String },
    FrameTooLarge { found: usize, limit: usize },
    UnexpectedFrame { expected: &'static str, got: String },
    RequestRejected { reason: RequestRejectionReason },
    UnsupportedAtomicBatch { operation_count: usize },
    UnsupportedAtomicOperationPlan { command_count: usize },
    SpiritStore { reason: String },
    ActorRuntime { reason: String },
    Migration { reason: String },
}

pub type Result<T> = core::result::Result<T, Error>;

/// Why a batch failed, as the frame layer reports it.
#[derive(Debug, Clone, Copy, PartialEq, Eq, Structural)]
pub enum BatchFailureReason {
    EngineUnavailable,
    EngineRejected,
}

/// Whether a failed batch may be retried.
#[derive(Debug, Clone, Copy, PartialEq, Eq, Structural)]
pub enum RetryClassification {
    Unknown,
    NotRetryable,
}

/// Whether a failed batch left a commit behind.
#[derive(Debug, Clone, Copy, PartialEq, Eq, Structural)]
pub enum CommitStatus {
    NotCommitted,
    Unknown,
}

/// The errors whose cause lies in the running engine rather than in the
/// request: input/output and the actor runtime.
pub open spec fn is_engine_fault(error: Error) -> bool {
    error is InputOutput || error is ActorRuntime
}

/// The errors after which a commit may or may not have happened.
pub open spec fn may_have_committed(error: Error) -> bool {
    error is InputOutput || error is ActorRuntime || error is SpiritStore || error is Migration
}

impl Error {
    pub fn input_output(reason: String) -> (error: Self)
        ensures
            error == (Error::InputOutput { reason }),
    {
        Error::InputOutput { reason }
    }

    pub fn signal_frame(reason: String) -> (error: Self)
        ensures
            error == (Error::SignalFrame { reason }),
    {
        Error::SignalFrame { reason }
    }

    pub fn actor_runtime(reason: String) -> (error: Self)
        ensures
            error == (Error::ActorRuntime { reason }),
    {
        Error::ActorRuntime { reason }
    }

    pub fn spirit_store(reason: String) -> (error: Self)
        ensures
            error == (Error::SpiritStore { reason }),
    {
        Error::SpiritStore { reason }
    }

    pub fn migration(reason: String) -> (error: Self)
        ensures
            error == (Error::Migration { reason }),
    {
        Error::Migration { reason }
    }

    /// Engine faults make the engine unavailable; every other error is a
    /// rejection by the engine.
    pub fn batch_failure_reason(&self) -> (reason: BatchFailureReason)
        ensures
            reason == (if is_engine_fault(*self) {
                BatchFailureReason::EngineUnavailable
            } else {
                BatchFailureReason::EngineRejected
            }),
    {
        match self {
            Error::ActorRuntime { .. } | Error::InputOutput { .. } => {
                BatchFailureReason::EngineUnavailable
            },
            _ => BatchFailureReason::EngineRejected,
        }
    }

    /// Engine faults may be retried; no other error may.
    pub fn retry_classification(&self) -> (retry: RetryClassification)
        ensures
            retry == (if is_engine_fault(*self) {
                RetryClassification::Unknown
            } else {
                RetryClassification::NotRetryable
            }),
    {
        match self {
            Error::ActorRuntime { .. } | Error::InputOutput { .. } => RetryClassification::Unknown,
            _ => RetryClassification::NotRetryable,
        }
    }

    /// Input/output, actor-runtime, store and migration errors leave the
    /// commit status unknown; every other error is known not to have
    /// committed.
    pub fn commit_status(&self) -> (status: CommitStatus)
        ensures
            status == (if may_have_committed(*self) {
                CommitStatus::Unknown
            } else {
                CommitStatus::NotCommitted
            }),
    {
        match self {
            Error::InputOutput { .. }
            | Error::ActorRuntime { .. }
            | Error::SpiritStore { .. }
            | Error::Migration { .. } => CommitStatus::Unknown,
            _ => CommitStatus::NotCommitted,
        }
    }
}

} // verus!
