//! The storage hub's version marker and the auto-migration runner.
//!
//! Opening the storage reads the marker beside the database and takes one
//! of three branches: no marker (fresh database) writes NEXT; a NEXT marker
//! needs nothing; any other marker runs the bridge and, when it succeeds,
//! writes NEXT forward. Each open records one upgrade-log entry.

use vstd::prelude::*;

verus! {

/// The version triple recorded beside the database: major, minor, patch.
#[derive(Debug, Clone, Copy, PartialEq, Eq, Hash, Structural)]
pub struct VersionMarker {
    pub major: u32,
    pub minor: u32,
    pub patch: u32,
}

/// The version this build writes data under (0.1.1).
pub open spec fn next_marker() -> VersionMarker {
    VersionMarker { major: 0, minor: 1, patch: 1 }
}

/// The baseline this build migrates from (0.1.0).
pub open spec fn main_marker() -> VersionMarker {
    VersionMarker { major: 0, minor: 1, patch: 0 }
}

impl VersionMarker {
    pub fn new(major: u32, minor: u32, patch: u32) -> (marker: Self)
        ensures
            marker == (VersionMarker { major, minor, patch }),
    {
        VersionMarker { major, minor, patch }
    }

    /// The version this build writes data under.
    pub fn next() -> (marker: Self)
        ensures
            marker == next_marker(),
    {
        VersionMarker::new(0, 1, 1)
    }

    /// The baseline this build migrates from.
    pub fn main() -> (marker: Self)
        ensures
            marker == main_marker(),
    {
        VersionMarker::new(0, 1, 0)
    }
}

/// The outcome of one upgrade ceremony.
#[derive(Debug, Clone, Copy, PartialEq, Eq, Hash, Structural)]
pub enum UpgradeOutcome {
    MigratedSuccessfully,
    NoMigrationNeeded,
    MigrationFailed,
    RolledBack,
}

/// One row of the upgrade log.
#[derive(Debug, Clone, Copy, PartialEq, Eq, Structural)]
pub struct UpgradeLogEntry {
    pub from: VersionMarker,
    pub to: VersionMarker,
    pub outcome: UpgradeOutcome,
    /// Microseconds since the epoch when the ceremony started.
    pub timestamp_micros: u64,
    /// Microseconds from start to outcome.
    pub duration_micros: u64,
}

/// A table the storage schema owns: its logical name and layout type.
#[derive(Debug, Clone, Copy, PartialEq, Eq)]
pub struct TableDescriptor {
    pub logical_name: &'static str,
    pub table_type: &'static str,
}

impl TableDescriptor {
    pub fn new(logical_name: &'static str, table_type: &'static str) -> (descriptor: Self)
        ensures
            descriptor.logical_name@ == logical_name@,
            descriptor.table_type@ == table_type@,
    {
        TableDescriptor { logical_name, table_type }
    }
}

/// The closed set of tables the storage schema owns.
pub open spec fn authored_tables() -> Seq<(Seq<char>, Seq<char>)> {
    seq![("Records"@, "RecordsTable"@), ("RecordIdentifierMint"@, "RecordIdentifierMintTable"@)]
}

/// The storage schema's table layout.
#[derive(Debug, Clone, Copy, Default, PartialEq, Eq, Structural)]
pub struct StorageDescriptor;

impl StorageDescriptor {
    /// The tables, in schema order.
    pub fn tables() -> (tables: Vec<TableDescriptor>)
        ensures
            tables@.len() == authored_tables().len(),
            forall|i: int|
                0 <= i < tables@.len() ==> (#[trigger] tables@[i]).logical_name@
                    == authored_tables()[i].0 && tables@[i].table_type@ == authored_tables()[i].1,
    {
        let mut tables = Vec::new();
        tables.push(TableDescriptor::new("Records", "RecordsTable"));
        tables.push(TableDescriptor::new("RecordIdentifierMint", "RecordIdentifierMintTable"));
        tables
    }

    /// The layout type of the table named `logical_name`, if the schema
    /// lists one.
    pub fn table_type_for(logical_name: &str) -> (table_type: Option<&'static str>)
        ensures
            match table_type {
                Some(found) => exists|i: int|
                    0 <= i < authored_tables().len() && authored_tables()[i].0 == logical_name@
                        && #[trigger] authored_tables()[i].1 == found@,
                None => forall|i: int|
                    0 <= i < authored_tables().len() ==> #[trigger] authored_tables()[i].0
                        != logical_name@,
            },
    {
        let tables = Self::tables();
        let mut at: usize = 0;
        while at < tables.len()
            invariant
                tables@.len() == authored_tables().len(),
                forall|i: int|
                    0 <= i < tables@.len() ==> (#[trigger] tables@[i]).logical_name@
                        == authored_tables()[i].0 && tables@[i].table_type@
                        == authored_tables()[i].1,
                at <= tables@.len(),
                forall|i: int| 0 <= i < at ==> #[trigger] authored_tables()[i].0 != logical_name@,
            decreases tables@.len() - at,
        {
            if crate::trace::labels_equal(tables[at].logical_name, logical_name) {
                assert(authored_tables()[at as int].1 == tables@[at as int].table_type@);
                return Some(tables[at].table_type);
            }
            at += 1;
        }
        None
    }
}

/// Why a migration failed.
#[derive(Debug, Clone, PartialEq, Eq)]
pub enum MigrationError {
    /// The bridge rejected a row it could not transform.
    UnknownBridge { from: VersionMarker, to: VersionMarker },
    /// Input/output failed while writing the next-version shape.
    Io(String),
}

/// The migration bridge from `previous` to `next`. The only difference
/// between MAIN and NEXT is the marker itself, so no row is transformed and
/// the bridge always succeeds.
pub fn run_migration(location: &str, previous: VersionMarker, next: VersionMarker) -> (migrated: Result<(), MigrationError>)
    ensures
        migrated is Ok,
{
    Ok(())
}

/// Whether opening over the marker found on disk runs the bridge: only an
/// earlier marker than NEXT needs it.
pub fn needs_bridge(on_disk: Option<VersionMarker>) -> (needed: bool)
    ensures
        needed == (on_disk matches Some(marker) && marker != next_marker()),
{
    match on_disk {
        Some(marker) => marker != VersionMarker::next(),
        None => false,
    }
}

/// Opening the storage: the marker the storage ends at, whether NEXT is to
/// be written beside the database, and the log entry recorded.
pub open spec fn open_outcome(
    on_disk: Option<VersionMarker>,
    bridge_succeeded: bool,
    started_micros: u64,
    finished_micros: u64,
) -> (VersionMarker, bool, UpgradeLogEntry) {
    match on_disk {
        None => (next_marker(), true, UpgradeLogEntry {
            from: next_marker(),
            to: next_marker(),
            outcome: UpgradeOutcome::NoMigrationNeeded,
            timestamp_micros: started_micros,
            duration_micros: 0,
        }),
        Some(marker) => if marker == next_marker() {
            (marker, false, UpgradeLogEntry {
                from: marker,
                to: marker,
                outcome: UpgradeOutcome::NoMigrationNeeded,
                timestamp_micros: started_micros,
                duration_micros: 0,
            })
        } else {
            let duration = if finished_micros >= started_micros {
                (finished_micros - started_micros) as u64
            } else {
                0
            };
            if bridge_succeeded {
                (next_marker(), true, UpgradeLogEntry {
                    from: marker,
                    to: next_marker(),
                    outcome: UpgradeOutcome::MigratedSuccessfully,
                    timestamp_micros: started_micros,
                    duration_micros: duration,
                })
            } else {
                (marker, false, UpgradeLogEntry {
                    from: marker,
                    to: next_marker(),
                    outcome: UpgradeOutcome::MigrationFailed,
                    timestamp_micros: started_micros,
                    duration_micros: duration,
                })
            }
        },
    }
}

/// What the storage layer holds: its location, the marker it believes
/// the database is written under, this session's upgrade log, and the
/// marker that opening asks to be written beside the database.
#[derive(Debug, Clone)]
pub struct SpiritStorageInner {
    location: String,
    marker: Option<VersionMarker>,
    upgrade_log: Vec<UpgradeLogEntry>,
    marker_to_write: Option<VersionMarker>,
}

/// Handle to the schema-driven storage layer.
#[derive(Debug, Clone)]
pub struct SpiritStorageHandle {
    inner: SpiritStorageInner,
}

impl SpiritStorageHandle {
    pub closed spec fn spec_location(&self) -> Seq<char> {
        self.inner.location@
    }

    pub closed spec fn spec_marker(&self) -> Option<VersionMarker> {
        self.inner.marker
    }

    pub closed spec fn spec_log(&self) -> Seq<UpgradeLogEntry> {
        self.inner.upgrade_log@
    }

    pub closed spec fn spec_marker_to_write(&self) -> Option<VersionMarker> {
        self.inner.marker_to_write
    }

    /// Opens the storage at `location`, given the marker found beside the
    /// database (`None` when there is none) and the clock readings, in
    /// microseconds, taken before and after the bridge ran.
    pub fn open(
        location: String,
        on_disk: Option<VersionMarker>,
        started_micros: u64,
        finished_micros: u64,
    ) -> (handle: Self)
        ensures
            handle.spec_location() == location@,
            ({
                let (marker, write, entry) = open_outcome(
                    on_disk,
                    true,
                    started_micros,
                    finished_micros,
                );
                &&& handle.spec_marker() == Some(marker)
                &&& handle.spec_log() == seq![entry]
                &&& handle.spec_marker_to_write() == if write {
                    Some(next_marker())
                } else {
                    None::<VersionMarker>
                }
            }),
    {
        let next = VersionMarker::next();
        let mut upgrade_log = Vec::new();
        let mut marker_to_write = None;
        let final_marker = match on_disk {
            None => {
                marker_to_write = Some(next);
                upgrade_log.push(
                    UpgradeLogEntry {
                        from: next,
                        to: next,
                        outcome: UpgradeOutcome::NoMigrationNeeded,
                        timestamp_micros: started_micros,
                        duration_micros: 0,
                    },
                );
                next
            },
            Some(marker) => {
                if marker == next {
                    upgrade_log.push(
                        UpgradeLogEntry {
                            from: marker,
                            to: marker,
                            outcome: UpgradeOutcome::NoMigrationNeeded,
                            timestamp_micros: started_micros,
                            duration_micros: 0,
                        },
                    );
                    marker
                } else {
                    let migration = run_migration(location.as_str(), marker, next);
                    let duration = if finished_micros >= started_micros {
                        finished_micros - started_micros
                    } else {
                        0
                    };
                    match migration {
                        Ok(()) => {
                            marker_to_write = Some(next);
                            upgrade_log.push(
                                UpgradeLogEntry {
                                    from: marker,
                                    to: next,
                                    outcome: UpgradeOutcome::MigratedSuccessfully,
                                    timestamp_micros: started_micros,
                                    duration_micros: duration,
                                },
                            );
                            next
                        },
                        Err(_error) => {
                            upgrade_log.push(
                                UpgradeLogEntry {
                                    from: marker,
                                    to: next,
                                    outcome: UpgradeOutcome::MigrationFailed,
                                    timestamp_micros: started_micros,
                                    duration_micros: duration,
                                },
                            );
                            marker
                        },
                    }
                }
            },
        };
        let handle = SpiritStorageHandle {
            inner: SpiritStorageInner {
                location,
                marker: Some(final_marker),
                upgrade_log,
                marker_to_write,
            },
        };
        assert(handle.spec_log() =~= seq![
            open_outcome(on_disk, true, started_micros, finished_micros).2,
        ]);
        handle
    }

    pub fn location(&self) -> (location: &str)
        ensures
            location@ == self.spec_location(),
    {
        self.inner.location.as_str()
    }

    /// The marker the daemon believes the database is written under.
    pub fn current_marker(&self) -> (marker: Option<VersionMarker>)
        ensures
            marker == self.spec_marker(),
    {
        self.inner.marker
    }

    /// The upgrade-log entries of this session.
    pub fn upgrade_log(&self) -> (log: Vec<UpgradeLogEntry>)
        ensures
            log@ == self.spec_log(),
    {
        self.inner.upgrade_log.clone()
    }

    /// The marker to write beside the database, if opening moved it.
    pub fn marker_to_write(&self) -> (marker: Option<VersionMarker>)
        ensures
            marker == self.spec_marker_to_write(),
    {
        self.inner.marker_to_write
    }
}

/// Opening is idempotent once NEXT is reached: a database whose marker
/// opening wrote opens again with no migration, at the same marker.
pub proof fn law_reopen_needs_no_migration(
    on_disk: Option<VersionMarker>,
    started: u64,
    finished: u64,
    started_again: u64,
    finished_again: u64,
)
    ensures
        ({
            let (marker, write, _) = open_outcome(on_disk, true, started, finished);
            let on_disk_after = if write {
                Some(next_marker())
            } else {
                on_disk
            };
            let (marker_again, write_again, entry_again) = open_outcome(
                on_disk_after,
                true,
                started_again,
                finished_again,
            );
            &&& marker == next_marker()
            &&& marker_again == next_marker()
            &&& !write_again
            &&& entry_again.outcome == UpgradeOutcome::NoMigrationNeeded
        }),
{
}

} // verus!
