//! The upgrade log's internal channel: its action and response
//! vocabulary. It declares its own version marker with the storage
//! schema's layout.

use vstd::prelude::*;

verus! {

#[derive(Debug, Clone, Copy, PartialEq, Eq, Hash, Structural)]
pub struct Identifier(pub u64);

#[derive(Debug, Clone, Copy, PartialEq, Eq, Hash, Structural)]
pub struct VersionMarker {
    pub u32: u32,
    pub u32_2: u32,
    pub u32_3: u32,
}

#[derive(Debug, Clone, Copy, PartialEq, Eq, Hash, Structural)]
pub enum UpgradeOutcome {
    NoMigrationNeeded,
    MigratedSuccessfully,
    MigrationFailed,
}

#[derive(Debug, Clone, Copy, PartialEq, Eq, Structural)]
pub struct UpgradeLogEntry {
    pub from: VersionMarker,
    pub to: VersionMarker,
    pub outcome: UpgradeOutcome,
}

#[derive(Debug, Clone, Copy, PartialEq, Eq, Structural)]
pub struct AppendUpgradeEntryRequest(pub UpgradeLogEntry);

#[derive(Debug, Clone, Copy, PartialEq, Eq, Structural)]
pub struct QueryUpgradeLogRequest(pub u64);

#[derive(Debug, Clone, Copy, PartialEq, Eq, Structural)]
pub struct UpgradeEntryAppended(pub Identifier);

#[derive(Debug, Clone, PartialEq, Eq)]
pub struct UpgradeLogReturned(pub Vec<UpgradeLogEntry>);

/// The upgrade log's ACTION enum.
#[derive(Debug, Clone, Copy, PartialEq, Eq, Structural)]
pub enum UpgradeLogAction {
    AppendUpgradeEntry(AppendUpgradeEntryRequest),
    QueryUpgradeLog(QueryUpgradeLogRequest),
}

/// The upgrade log's RESPONSE enum, with the universal `Unknown` floor.
#[derive(Debug, Clone, PartialEq, Eq)]
pub enum UpgradeLogResponse {
    UpgradeEntryAppended(UpgradeEntryAppended),
    UpgradeLogReturned(UpgradeLogReturned),
    Unknown(String),
}

} // verus!
