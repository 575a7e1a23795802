//! persona-spirit: the psyche-to-mind interface component.
//!
//! This crate holds the decision logic of the spirit daemon: the actor
//! trace witness, the daemon clock, the intent record store and its topic
//! catalog, store migrations, the upgrade handover state machine, the
//! actor planes and the dispatch phase's routing, the command and effect
//! projection, the command-line client's decisions, and the schema-driven
//! actor engines.

pub mod actors;
pub mod catalog;
pub mod clock;
pub mod daemon;
pub mod error;
pub mod handover;
pub mod history;
pub mod migration;
pub mod observation;
pub mod policy;
pub mod record;
pub mod runtime;
pub mod schema_driven;
pub mod schema_poc;
pub mod store;
pub mod trace;
pub mod vec_copy;
