//! The schema-driven proof of concept: the three languages (wire signal,
//! storage sema, internal channels) with one actor engine per internal
//! channel, the three-branch migration runner, and the daemon glue that
//! routes v0.3-shape wire operations to the actors.
//!
//! The `spirit_*` modules hold the vocabulary each channel's schema
//! declares; the actor engines sit in the modules named after them.

pub mod daemon;
pub mod observer;
pub mod reading_actor;
pub mod recorder;
pub mod spirit_observer;
pub mod spirit_reading_actor;
pub mod spirit_recorder;
pub mod spirit_storage;
pub mod spirit_supervisor;
pub mod spirit_upgrade_log;
pub mod storage;
pub mod supervisor;
pub mod upgrade_log;
pub mod wire;
