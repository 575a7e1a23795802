//! The storage sema language: the version marker, the upgrade outcome and
//! the table descriptors of the storage schema.

use vstd::prelude::*;

verus! {

/// The version a database is written under: major, minor, patch.
#[derive(Debug, Clone, Copy, PartialEq, Eq, Hash, Structural)]
pub struct VersionMarker {
    pub u32: u32,
    pub u32_2: u32,
    pub u32_3: u32,
}

/// What one open did to the database's version.
#[derive(Debug, Clone, Copy, PartialEq, Eq, Hash, Structural)]
pub enum UpgradeOutcome {
    NoMigrationNeeded,
    MigratedSuccessfully,
    MigrationFailed,
}

/// One logical table of the storage schema.
#[derive(Debug, Clone, Copy, PartialEq, Eq)]
pub struct TableDescriptor {
    pub logical_name: &'static str,
}

/// The closed set of logical tables the storage schema owns.
pub struct StorageDescriptor;

/// The logical table names, in schema order.
pub open spec fn storage_table_names() -> Seq<Seq<char>> {
    seq!["Records"@, "IdentifierMint"@, "VersionMarker"@, "UpgradeLog"@]
}

impl StorageDescriptor {
    /// How many tables the schema declares.
    pub fn table_count() -> (count: usize)
        ensures
            count == storage_table_names().len(),
    {
        4
    }

    /// The tables, in schema order.
    pub fn tables() -> (tables: Vec<TableDescriptor>)
        ensures
            tables@.len() == storage_table_names().len(),
            forall|i: int|
                0 <= i < tables@.len() ==> (#[trigger] tables@[i]).logical_name@
                    == storage_table_names()[i],
    {
        let mut tables = Vec::new();
        tables.push(TableDescriptor { logical_name: "Records" });
        tables.push(TableDescriptor { logical_name: "IdentifierMint" });
        tables.push(TableDescriptor { logical_name: "VersionMarker" });
        tables.push(TableDescriptor { logical_name: "UpgradeLog" });
        tables
    }
}

} // verus!
