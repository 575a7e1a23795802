//! Schema-driven actor engines: each actor's `handle` is the match block
//! between its ACTION enum and its RESPONSE enum, and every RESPONSE enum
//! carries the universal `Unknown` safety floor.

pub mod keyed;
pub mod observer;
pub mod reading_actor;
pub mod recorder;
pub mod storage;
pub mod supervisor;
