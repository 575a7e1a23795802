//! The storage handle and the three-branch migration runner.
//!
//! Opening reads the marker found on disk:
//! - none: a fresh database; NEXT is written and `NoMigrationNeeded` logged;
//! - NEXT: nothing to do; `NoMigrationNeeded` logged;
//! - an earlier marker: the bridge runs, NEXT is written and
//!   `MigratedSuccessfully` logged.
//!
//! The storage is held in memory; it also mints the record identifiers.

use vstd::prelude::*;

use crate::schema_poc::spirit_storage::{StorageDescriptor, UpgradeOutcome, VersionMarker};
use crate::vec_copy::copy_all;

verus! {

/// The published baseline the previous release wrote.
pub open spec fn main_marker() -> VersionMarker {
    VersionMarker { u32: 0, u32_2: 3, u32_3: 0 }
}

/// The version this build writes and migrates to: one patch after MAIN.
pub open spec fn next_marker() -> VersionMarker {
    VersionMarker { u32: 0, u32_2: 3, u32_3: 1 }
}

pub fn main_version_marker() -> (marker: VersionMarker)
    ensures
        marker == main_marker(),
{
    VersionMarker { u32: 0, u32_2: 3, u32_3: 0 }
}

pub fn next_version_marker() -> (marker: VersionMarker)
    ensures
        marker == next_marker(),
{
    VersionMarker { u32: 0, u32_2: 3, u32_3: 1 }
}

/// Where the storage lives.
#[derive(Debug, Clone, Copy, PartialEq, Eq, Structural)]
pub enum StorageLocation {
    InMemory,
}

/// One line of the upgrade log.
#[derive(Debug, Clone, Copy, PartialEq, Eq, Structural)]
pub struct UpgradeLogRecord {
    pub from: VersionMarker,
    pub to: VersionMarker,
    pub outcome: UpgradeOutcome,
}

#[derive(Debug, Clone, Copy, PartialEq, Eq, Structural)]
pub enum MigrationError {
    BridgeFailed,
}

/// The log line and final marker that opening over `on_disk` gives.
pub open spec fn open_log_record(on_disk: Option<VersionMarker>) -> UpgradeLogRecord {
    match on_disk {
        None => UpgradeLogRecord {
            from: next_marker(),
            to: next_marker(),
            outcome: UpgradeOutcome::NoMigrationNeeded,
        },
        Some(marker) => if marker == next_marker() {
            UpgradeLogRecord { from: marker, to: marker, outcome: UpgradeOutcome::NoMigrationNeeded }
        } else {
            UpgradeLogRecord {
                from: marker,
                to: next_marker(),
                outcome: UpgradeOutcome::MigratedSuccessfully,
            }
        },
    }
}

/// The storage handle: its location, the marker it was opened at, the
/// upgrade log of that open, and the next identifier to mint.
#[derive(Debug)]
pub struct SpiritStorageHandle {
    location: StorageLocation,
    current_marker: VersionMarker,
    upgrade_log: Vec<UpgradeLogRecord>,
    next_identifier: u64,
}

impl SpiritStorageHandle {
    pub closed spec fn spec_location(&self) -> StorageLocation {
        self.location
    }

    pub closed spec fn spec_marker(&self) -> VersionMarker {
        self.current_marker
    }

    pub closed spec fn spec_log(&self) -> Seq<UpgradeLogRecord> {
        self.upgrade_log@
    }

    /// The identifier the next mint hands out.
    pub closed spec fn next_identifier(&self) -> u64 {
        self.next_identifier
    }

    /// Opens a fresh database: NEXT is written and `NoMigrationNeeded`
    /// logged.
    pub fn open(location: StorageLocation) -> (opened: Result<Self, MigrationError>)
        ensures
            opened matches Ok(handle) && {
                &&& handle.spec_location() == location
                &&& handle.spec_marker() == next_marker()
                &&& handle.spec_log() == seq![open_log_record(None)]
                &&& handle.next_identifier() == 1
            },
    {
        Self::open_with_on_disk_marker(location, None)
    }

    /// Opens over the marker found on disk (`None` for a fresh database) and
    /// runs the three-branch migration.
    pub fn open_with_on_disk_marker(location: StorageLocation, on_disk: Option<VersionMarker>) -> (opened:
        Result<Self, MigrationError>)
        ensures
            opened matches Ok(handle) && {
                &&& handle.spec_location() == location
                &&& handle.spec_marker() == open_log_record(on_disk).to
                &&& handle.spec_log() == seq![open_log_record(on_disk)]
                &&& handle.next_identifier() == 1
            },
    {
        let next = next_version_marker();
        let mut log: Vec<UpgradeLogRecord> = Vec::new();
        let final_marker = match on_disk {
            None => {
                log.push(
                    UpgradeLogRecord {
                        from: next,
                        to: next,
                        outcome: UpgradeOutcome::NoMigrationNeeded,
                    },
                );
                next
            },
            Some(marker) => {
                if marker == next {
                    log.push(
                        UpgradeLogRecord {
                            from: marker,
                            to: marker,
                            outcome: UpgradeOutcome::NoMigrationNeeded,
                        },
                    );
                    marker
                } else {
                    match Self::run_migration(marker, next) {
                        Ok(()) => {},
                        Err(error) => {
                            return Err(error);
                        },
                    }
                    log.push(
                        UpgradeLogRecord {
                            from: marker,
                            to: next,
                            outcome: UpgradeOutcome::MigratedSuccessfully,
                        },
                    );
                    next
                }
            },
        };
        proof {
            assert(log@ =~= seq![open_log_record(on_disk)]);
        }
        Ok(
            SpiritStorageHandle {
                location,
                current_marker: final_marker,
                upgrade_log: log,
                next_identifier: 1,
            },
        )
    }

    pub fn location(&self) -> (location: &StorageLocation)
        ensures
            *location == self.spec_location(),
    {
        &self.location
    }

    pub fn current_marker(&self) -> (marker: VersionMarker)
        ensures
            marker == self.spec_marker(),
    {
        self.current_marker
    }

    pub fn upgrade_log(&self) -> (log: Vec<UpgradeLogRecord>)
        ensures
            log@ == self.spec_log(),
    {
        copy_all(&self.upgrade_log)
    }

    /// Mints the next identifier; identifiers rise by one from 1.
    pub fn mint_identifier(&mut self) -> (identifier: u64)
        requires
            old(self).next_identifier() < u64::MAX,
        ensures
            identifier == old(self).next_identifier(),
            final(self).next_identifier() == old(self).next_identifier() + 1,
            final(self).spec_location() == old(self).spec_location(),
            final(self).spec_marker() == old(self).spec_marker(),
            final(self).spec_log() == old(self).spec_log(),
    {
        let value = self.next_identifier;
        self.next_identifier = value + 1;
        value
    }

    /// The logical table names the storage schema declares, in order.
    pub fn descriptor_table_names() -> (names: Vec<&'static str>)
        ensures
            names@.len() == crate::schema_poc::spirit_storage::storage_table_names().len(),
            forall|i: int|
                0 <= i < names@.len() ==> (#[trigger] names@[i])@
                    == crate::schema_poc::spirit_storage::storage_table_names()[i],
    {
        let tables = StorageDescriptor::tables();
        let mut names: Vec<&'static str> = Vec::new();
        let mut index: usize = 0;
        while index < tables.len()
            invariant
                index <= tables.len(),
                tables@.len() == crate::schema_poc::spirit_storage::storage_table_names().len(),
                forall|i: int|
                    0 <= i < tables@.len() ==> (#[trigger] tables@[i]).logical_name@
                        == crate::schema_poc::spirit_storage::storage_table_names()[i],
                names@.len() == index,
                forall|i: int|
                    0 <= i < index ==> (#[trigger] names@[i])@ == tables@[i].logical_name@,
            decreases tables.len() - index,
        {
            names.push(tables[index].logical_name);
            index = index + 1;
        }
        names
    }

    /// The bridge from MAIN to NEXT: the two differ in the patch version
    /// only, so no row is transformed and the bridge succeeds.
    fn run_migration(previous: VersionMarker, next: VersionMarker) -> (migrated: Result<
        (),
        MigrationError,
    >)
        ensures
            migrated is Ok,
    {
        Ok(())
    }
}

/// One mint: `after` is `before` with the next identifier handed out as
/// `minted`.
pub open spec fn mint_step(before: SpiritStorageHandle, after: SpiritStorageHandle, minted: u64) -> bool {
    &&& minted == before.next_identifier()
    &&& after.next_identifier() == before.next_identifier() + 1
    &&& after.spec_location() == before.spec_location()
    &&& after.spec_marker() == before.spec_marker()
    &&& after.spec_log() == before.spec_log()
}

/// A handle that mints from 1 hands out 1, 2, 3, ... in turn: after `k`
/// mints the next identifier is `k + 1`, and no identifier repeats.
pub proof fn law_mints_count_up(handles: Seq<SpiritStorageHandle>, minted: Seq<u64>)
    requires
        handles.len() == minted.len() + 1,
        handles[0].next_identifier() == 1,
        forall|i: int| 0 <= i < minted.len() ==> mint_step(handles[i], #[trigger] handles[i + 1], minted[i]),
    ensures
        forall|i: int| 0 <= i < minted.len() ==> #[trigger] minted[i] == i + 1,
        forall|i: int| 0 <= i < handles.len() ==> #[trigger] handles[i].next_identifier() == i + 1,
        forall|i: int, j: int| 0 <= i < j < minted.len() ==> minted[i] < minted[j],
    decreases minted.len(),
{
    if minted.len() > 0 {
        let last = minted.len() - 1;
        law_mints_count_up(handles.drop_last(), minted.drop_last());
        assert(handles.drop_last()[last] == handles[last]);
        assert forall|i: int| 0 <= i < minted.len() - 1 implies mint_step(
            handles.drop_last()[i],
            #[trigger] handles.drop_last()[i + 1],
            minted.drop_last()[i],
        ) by {
            assert(mint_step(handles[i], handles[i + 1], minted[i]));
        }
        assert(mint_step(handles[last], handles[last + 1], minted[last]));
        assert forall|i: int| 0 <= i < minted.len() implies #[trigger] minted[i] == i + 1 by {
            if i < last {
                assert(minted.drop_last()[i] == minted[i]);
            }
        }
        assert forall|i: int| 0 <= i < handles.len() implies #[trigger] handles[i].next_identifier()
            == i + 1 by {
            if i <= last {
                assert(handles.drop_last()[i] == handles[i]);
            }
        }
        assert forall|i: int, j: int| 0 <= i < j < minted.len() implies minted[i] < minted[j] by {
            assert(minted[i] == i + 1);
            assert(minted[j] == j + 1);
        }
    }
}

/// Opening is idempotent: whatever marker a database was opened over, it
/// ends at NEXT, and opening it again over that marker needs no migration.
pub proof fn law_reopen_needs_no_migration(on_disk: Option<VersionMarker>)
    ensures
        open_log_record(on_disk).to == next_marker(),
        open_log_record(Some(open_log_record(on_disk).to)) == (UpgradeLogRecord {
            from: next_marker(),
            to: next_marker(),
            outcome: UpgradeOutcome::NoMigrationNeeded,
        }),
{
}

} // verus!
