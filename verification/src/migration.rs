//! Store migrations between schema versions.
//!
//! Reading the previous store and projecting each record onto the current
//! entry shape happen at the edge; this module orders the records by
//! identifier, refuses a target that already holds records, and writes the
//! records into the target: keeping their identifiers (timestamp- and
//! identifier-preserving migrations), minting fresh ones (the identifier
//! migration), or keeping the short ones and re-minting the long ones (the
//! short-identifier migration), with the table that maps old identifiers to
//! new ones.

use vstd::prelude::*;

use crate::daemon::StorePath;
use crate::error::Error;
use crate::store::{
    RecordIdentifier, SpiritStore, StampedEntry, StoredRecordView, base36, base36_digits,
    commits_after, identifier_code, lemma_short_identifier_code, max_nat, power36, records_above,
    records_below, topics_valid,
};

verus! {

/// The longest identifier code the short-identifier migration keeps.
pub const SHORT_IDENTIFIER_MAXIMUM_CODE_LENGTH: usize = 7;

/// Which store a migration reads and which it writes.
#[derive(Debug, Clone, PartialEq, Eq)]
pub struct MigrationConfiguration {
    pub source: StorePath,
    pub target: StorePath,
}

impl MigrationConfiguration {
    pub fn new(source: StorePath, target: StorePath) -> (configuration: Self)
        ensures
            configuration.source@ == source@,
            configuration.target@ == target@,
    {
        MigrationConfiguration { source, target }
    }
}

/// The report a finished migration prints.
#[derive(Debug, Clone, Copy, PartialEq, Eq, Structural)]
pub struct MigrationCompleted {
    pub records: u64,
}

impl MigrationCompleted {
    pub fn new(records: u64) -> (completed: Self)
        ensures
            completed.records == records,
    {
        MigrationCompleted { records }
    }
}

/// How many records a migration wrote.
#[derive(Debug, Clone, Copy, PartialEq, Eq, Structural)]
pub struct MigrationOutcome {
    records: u64,
}

impl MigrationOutcome {
    pub closed spec fn spec_records(self) -> u64 {
        self.records
    }

    pub fn new(records: u64) -> (outcome: Self)
        ensures
            outcome.spec_records() == records,
    {
        MigrationOutcome { records }
    }

    pub fn records(self) -> (records: u64)
        ensures
            records == self.spec_records(),
    {
        self.records
    }

    pub fn completed(self) -> (completed: MigrationCompleted)
        ensures
            completed.records == self.spec_records(),
    {
        MigrationCompleted::new(self.records)
    }
}

/// One row of the identifier migration's table: the identifier the target
/// minted, and the ordinal identifier the record had before.
#[derive(Debug, Clone, Copy, PartialEq, Eq, Structural)]
pub struct IdentifierMigrationRow {
    pub hash_identifier: RecordIdentifier,
    pub ordinal_identifier: u64,
}

/// The identifier migration's table, in migration order.
#[derive(Debug, Clone, PartialEq, Eq)]
pub struct IdentifierMigrationTable {
    pub rows: Vec<IdentifierMigrationRow>,
}

/// One row of the short-identifier migration's table.
#[derive(Debug, Clone, Copy, PartialEq, Eq, Structural)]
pub struct ShortIdentifierMigrationRow {
    pub previous_identifier: RecordIdentifier,
    pub current_identifier: RecordIdentifier,
}

/// The short-identifier migration's table, in migration order.
#[derive(Debug, Clone, PartialEq, Eq)]
pub struct ShortIdentifierMigrationTable {
    pub rows: Vec<ShortIdentifierMigrationRow>,
}

/// A record read from a previous store, projected onto the current entry
/// shape.
#[derive(Debug, PartialEq, Eq)]
pub struct MigratedRecord {
    pub identifier: RecordIdentifier,
    pub entry: StampedEntry,
}

impl View for MigratedRecord {
    type V = StoredRecordView;

    open spec fn view(&self) -> StoredRecordView {
        StoredRecordView {
            id: self.identifier.value,
            entry: self.entry@.entry,
            moment: self.entry@.moment,
        }
    }
}

pub open spec fn migrated_views(records: Seq<MigratedRecord>) -> Seq<StoredRecordView> {
    records.map_values(|record: MigratedRecord| record@)
}

/// Where a record with identifier `key` goes in `sorted`: after every
/// record whose identifier is at most `key`.
pub open spec fn insertion_point(sorted: Seq<StoredRecordView>, key: u64) -> int
    decreases sorted.len(),
{
    if sorted.len() == 0 {
        0
    } else if sorted.last().id <= key {
        sorted.len() as int
    } else {
        insertion_point(sorted.drop_last(), key)
    }
}

/// `records` ordered by identifier, records with equal identifiers kept in
/// their first order.
pub open spec fn ordered_by_identifier(records: Seq<StoredRecordView>) -> Seq<StoredRecordView>
    decreases records.len(),
{
    if records.len() == 0 {
        records
    } else {
        let sorted = ordered_by_identifier(records.drop_last());
        let at = insertion_point(sorted, records.last().id);
        sorted.insert(at, records.last())
    }
}

/// Identifiers never fall along `records`.
pub open spec fn identifiers_rise(records: Seq<StoredRecordView>) -> bool {
    forall|i: int, j: int| 0 <= i < j < records.len() ==> records[i].id <= records[j].id
}

proof fn lemma_insertion_point_bounds(sorted: Seq<StoredRecordView>, key: u64)
    requires
        identifiers_rise(sorted),
    ensures
        0 <= insertion_point(sorted, key) <= sorted.len(),
        forall|i: int| 0 <= i < insertion_point(sorted, key) ==> sorted[i].id <= key,
        forall|i: int| insertion_point(sorted, key) <= i < sorted.len() ==> sorted[i].id > key,
    decreases sorted.len(),
{
    if sorted.len() > 0 {
        let last = sorted.len() - 1;
        if sorted.last().id <= key {
            assert forall|i: int| 0 <= i < insertion_point(sorted, key) implies sorted[i].id
                <= key by {
                if i < last {
                    assert(sorted[i].id <= sorted[last].id);
                }
            }
        } else {
            let init = sorted.drop_last();
            assert(identifiers_rise(init)) by {
                assert forall|i: int, j: int| 0 <= i < j < init.len() implies init[i].id
                    <= init[j].id by {
                    assert(init[i] == sorted[i] && init[j] == sorted[j]);
                }
            }
            lemma_insertion_point_bounds(init, key);
            let at = insertion_point(sorted, key);
            assert forall|i: int| 0 <= i < at implies sorted[i].id <= key by {
                assert(sorted[i] == init[i]);
            }
            assert forall|i: int| at <= i < sorted.len() implies sorted[i].id > key by {
                if i < last {
                    assert(sorted[i] == init[i]);
                }
            }
        }
    }
}

/// Ordering by identifier gives rising identifiers over the same records.
pub proof fn lemma_ordered_rises(records: Seq<StoredRecordView>)
    ensures
        identifiers_rise(ordered_by_identifier(records)),
        ordered_by_identifier(records).len() == records.len(),
    decreases records.len(),
{
    if records.len() > 0 {
        let sorted = ordered_by_identifier(records.drop_last());
        lemma_ordered_rises(records.drop_last());
        let x = records.last();
        lemma_insertion_point_bounds(sorted, x.id);
        let at = insertion_point(sorted, x.id);
        let result = sorted.insert(at, x);
        assert forall|i: int, j: int| 0 <= i < j < result.len() implies result[i].id
            <= result[j].id by {
            if j < at {
            } else if j == at {
            } else if i < at {
                assert(result[j] == sorted[j - 1]);
            } else if i == at {
                assert(result[j] == sorted[j - 1]);
            } else {
                assert(result[i] == sorted[i - 1]);
                assert(result[j] == sorted[j - 1]);
            }
        }
    }
}

/// Orders migrated records by identifier; records with equal identifiers
/// keep their order.
pub fn order_by_identifier(records: Vec<MigratedRecord>) -> (ordered: Vec<MigratedRecord>)
    ensures
        migrated_views(ordered@) == ordered_by_identifier(migrated_views(records@)),
{
    let ghost all = migrated_views(records@);
    let count: usize = records.len();
    let mut remaining = records;
    let mut ordered: Vec<MigratedRecord> = Vec::new();
    let mut taken: usize = 0;
    while remaining.len() > 0
        invariant
            all.len() == taken + remaining@.len(),
            all.len() == count,
            migrated_views(remaining@) == all.skip(taken as int),
            migrated_views(ordered@) == ordered_by_identifier(all.take(taken as int)),
        decreases remaining@.len(),
    {
        let ghost views_before = migrated_views(ordered@);
        let ghost rest_before = remaining@;
        let record = remaining.remove(0);
        proof {
            assert(migrated_views(rest_before)[0] == rest_before[0]@);
            assert(all.skip(taken as int)[0] == all[taken as int]);
            assert forall|k: int| 0 <= k < remaining@.len() implies #[trigger] migrated_views(
                remaining@,
            )[k] == all.skip(taken as int + 1)[k] by {
                assert(remaining@[k] == rest_before[k + 1]);
                assert(migrated_views(rest_before)[k + 1] == rest_before[k + 1]@);
                assert(all.skip(taken as int)[k + 1] == all[taken + k + 1]);
            }
            assert(migrated_views(remaining@) =~= all.skip(taken as int + 1));
        }
        let key = record.identifier.value;
        let mut at: usize = ordered.len();
        proof {
            assert(views_before.take(at as int) =~= views_before);
        }
        while at > 0 && ordered[at - 1].identifier.value > key
            invariant
                at <= ordered@.len(),
                views_before == migrated_views(ordered@),
                insertion_point(views_before, key) == insertion_point(
                    views_before.take(at as int),
                    key,
                ),
            decreases at,
        {
            proof {
                assert(views_before.take(at as int).drop_last() =~= views_before.take(at - 1));
            }
            at = at - 1;
        }
        proof {
            if at > 0 {
                assert(views_before.take(at as int).last().id <= key);
            }
            assert(views_before.take(ordered@.len() as int) =~= views_before);
        }
        ordered.insert(at, record);
        proof {
            let prefix = all.take(taken as int + 1);
            assert(prefix.drop_last() =~= all.take(taken as int));
            assert(prefix.last() == record@);
            assert(migrated_views(ordered@) =~= views_before.insert(at as int, record@));
        }
        taken = taken + 1;
    }
    proof {
        assert(all.take(taken as int) =~= all);
    }
    ordered
}

/// The records of `store` after importing `records` one after the other,
/// each under its own identifier, replacing a record stored under it.
pub open spec fn imported(store: Seq<StoredRecordView>, records: Seq<StoredRecordView>) -> Seq<
    StoredRecordView,
>
    decreases records.len(),
{
    if records.len() == 0 {
        store
    } else {
        let before = imported(store, records.drop_last());
        let record = records.last();
        records_below(before, record.id).push(record) + records_above(before, record.id)
    }
}

/// Every record carries acceptable topics.
pub open spec fn all_topics_valid(records: Seq<StoredRecordView>) -> bool {
    forall|i: int| 0 <= i < records.len() ==> topics_valid(#[trigger] records[i].entry.topics)
}

/// The highest of `high` and the identifiers of `records`.
pub open spec fn max_identifier(high: nat, records: Seq<StoredRecordView>) -> nat
    decreases records.len(),
{
    if records.len() == 0 {
        high
    } else {
        max_nat(max_identifier(high, records.drop_last()), records.last().id as nat)
    }
}

/// The highest identifier is at least `high` and at least every record's.
pub proof fn lemma_max_identifier_bounds(high: nat, records: Seq<StoredRecordView>)
    ensures
        max_identifier(high, records) >= high,
        forall|j: int| 0 <= j < records.len() ==> max_identifier(high, records) >= (
        #[trigger] records[j]).id,
    decreases records.len(),
{
    if records.len() > 0 {
        lemma_max_identifier_bounds(high, records.drop_last());
        assert forall|j: int| 0 <= j < records.len() implies max_identifier(high, records) >= (
        #[trigger] records[j]).id by {
            if j < records.len() - 1 {
                assert(records.drop_last()[j] == records[j]);
            }
        }
    }
}

/// The first identifier the identifier migration mints into `target` for
/// `records`: above every identifier the target ever used, above its
/// commit count, and above every ordinal of the records, so that no minted
/// identifier is an ordinal already used.
pub open spec fn reassigned_first(target: SpiritStore, records: Seq<StoredRecordView>) -> nat {
    max_nat(max_nat(target.high_water(), max_identifier(0, records)), target.commits()) + 1
}

/// The records after `store` gets `records` appended under the identifiers
/// `first`, `first + 1`, ... in order.
pub open spec fn appended_from(
    store: Seq<StoredRecordView>,
    records: Seq<StoredRecordView>,
    first: nat,
) -> Seq<StoredRecordView> {
    store + Seq::new(
        records.len(),
        |i: int|
            StoredRecordView {
                id: (first + i) as u64,
                entry: records[i].entry,
                moment: records[i].moment,
            },
    )
}

/// Takes the first record out of `remaining`, which shows `views` from
/// `done` on.
fn take_first(remaining: &mut Vec<MigratedRecord>, Ghost(views): Ghost<Seq<StoredRecordView>>, Ghost(done): Ghost<int>) -> (record: MigratedRecord)
    requires
        0 <= done < views.len(),
        migrated_views(old(remaining)@) == views.skip(done),
    ensures
        record@ == views[done],
        migrated_views(final(remaining)@) == views.skip(done + 1),
        final(remaining)@.len() == old(remaining)@.len() - 1,
{
    let ghost rest_before = remaining@;
    proof {
        assert(migrated_views(rest_before).len() == rest_before.len());
        assert(views.skip(done).len() > 0);
    }
    let record = remaining.remove(0);
    proof {
        assert(migrated_views(rest_before)[0] == rest_before[0]@);
        assert(views.skip(done)[0] == views[done]);
        assert forall|k: int| 0 <= k < remaining@.len() implies #[trigger] migrated_views(
            remaining@,
        )[k] == views.skip(done + 1)[k] by {
            assert(remaining@[k] == rest_before[k + 1]);
            assert(migrated_views(rest_before)[k + 1] == rest_before[k + 1]@);
            assert(views.skip(done)[k + 1] == views[done + k + 1]);
        }
        assert(migrated_views(remaining@) =~= views.skip(done + 1));
    }
    record
}

/// Imports `records` one after the other, each under its own identifier.
#[verifier::spinoff_prover]
fn import_each(target: &mut SpiritStore, records: Vec<MigratedRecord>) -> (imported_count: Result<
    u64,
    Error,
>)
    requires
        old(target).wf(),
    ensures
        final(target).wf(),
        final(target).spec_location() == old(target).spec_location(),
        match imported_count {
            Ok(count) => {
                &&& count == records@.len()
                &&& all_topics_valid(migrated_views(records@))
                &&& final(target)@ == imported(old(target)@, migrated_views(records@))
                &&& final(target).high_water() == max_identifier(
                    old(target).high_water(),
                    migrated_views(records@),
                )
                &&& final(target).commits() == commits_after(
                    old(target).commits(),
                    records@.len(),
                )
            },
            Err(error) => {
                &&& !all_topics_valid(migrated_views(records@))
                &&& error is RequestRejected
            },
        },
{
    let ghost views = migrated_views(records@);
    let ghost start = target@;
    let ghost high = target.high_water();
    let ghost commits = target.commits();
    let total: usize = records.len();
    let mut remaining = records;
    let mut done: u64 = 0;
    proof {
        assert(views.skip(0) =~= views);
        assert(views.take(0) =~= Seq::<StoredRecordView>::empty());
    }
    while remaining.len() > 0
        invariant
            target.wf(),
            target.spec_location() == old(target).spec_location(),
            start == old(target)@,
            high == old(target).high_water(),
            commits == old(target).commits(),
            views == migrated_views(records@),
            views.len() == total,
            done <= total,
            migrated_views(remaining@) == views.skip(done as int),
            target@ == imported(start, views.take(done as int)),
            target.high_water() == max_identifier(high, views.take(done as int)),
            target.commits() == commits_after(commits, done as nat),
            all_topics_valid(views.take(done as int)),
        decreases remaining@.len(),
    {
        proof {
            assert(migrated_views(remaining@).len() == remaining@.len());
        }
        let record = take_first(&mut remaining, Ghost(views), Ghost(done as int));
        let MigratedRecord { identifier, entry } = record;
        proof {
            assert(entry@.entry == views[done as int].entry);
        }
        match target.import_migrated_record(identifier, entry) {
            Ok(()) => {
                assert(topics_valid(views[done as int].entry.topics));
            },
            Err(error) => {
                proof {
                    assert(!topics_valid(views[done as int].entry.topics));
                }
                return Err(error);
            },
        }
        proof {
            let prefix = views.take(done as int + 1);
            assert(prefix.drop_last() =~= views.take(done as int));
            assert(prefix.last() == views[done as int]);
            assert forall|i: int| 0 <= i < prefix.len() implies topics_valid(
                #[trigger] prefix[i].entry.topics,
            ) by {
                if i < done {
                    assert(prefix[i] == views.take(done as int)[i]);
                    assert(topics_valid(views.take(done as int)[i].entry.topics));
                } else {
                    assert(prefix[i] == views[done as int]);
                }
            }
        }
        done = done + 1;
    }
    proof {
        assert(views.take(done as int) =~= views);
    }
    Ok(done)
}

/// Stores `records` one after the other under freshly minted identifiers.
#[verifier::spinoff_prover]
fn assert_each(target: &mut SpiritStore, records: Vec<MigratedRecord>) -> (minted: Result<
    Vec<RecordIdentifier>,
    Error,
>)
    requires
        old(target).wf(),
    ensures
        final(target).wf(),
        final(target).spec_location() == old(target).spec_location(),
        ({
            let views = migrated_views(records@);
            let first = old(target).next_identifier();
            match minted {
                Ok(identifiers) => {
                    &&& all_topics_valid(views)
                    &&& first + views.len() <= u64::MAX + 1
                    &&& final(target)@ == appended_from(old(target)@, views, first)
                    &&& identifiers@.len() == views.len()
                    &&& forall|i: int|
                        0 <= i < views.len() ==> #[trigger] identifiers@[i] == (RecordIdentifier {
                            value: (first + i) as u64,
                        })
                },
                Err(error) => {
                    &&& !all_topics_valid(views) || first + views.len() > u64::MAX + 1
                    &&& error is RequestRejected || error is SpiritStore
                },
            }
        }),
{
    let ghost views = migrated_views(records@);
    let ghost first = target.next_identifier();
    let ghost start = target@;
    let total: usize = records.len();
    let mut remaining = records;
    let mut identifiers: Vec<RecordIdentifier> = Vec::new();
    let mut done: u64 = 0;
    proof {
        assert(views.skip(0) =~= views);
        assert(appended_from(start, views.take(0), first) =~= start);
    }
    while remaining.len() > 0
        invariant
            target.wf(),
            target.spec_location() == old(target).spec_location(),
            start == old(target)@,
            first == old(target).next_identifier(),
            views == migrated_views(records@),
            views.len() == total,
            done <= total,
            migrated_views(remaining@) == views.skip(done as int),
            target@ == appended_from(start, views.take(done as int), first),
            target.next_identifier() == first + done,
            all_topics_valid(views.take(done as int)),
            identifiers@.len() == done,
            forall|i: int|
                0 <= i < done ==> #[trigger] identifiers@[i] == (RecordIdentifier {
                    value: (first + i) as u64,
                }),
        decreases remaining@.len(),
    {
        proof {
            assert(migrated_views(remaining@).len() == remaining@.len());
        }
        let record = take_first(&mut remaining, Ghost(views), Ghost(done as int));
        proof {
            assert(record.entry@.entry == views[done as int].entry);
        }
        let accepted = match target.assert_entry(record.entry) {
            Ok(accepted) => {
                assert(topics_valid(views[done as int].entry.topics));
                accepted
            },
            Err(error) => {
                proof {
                    if topics_valid(views[done as int].entry.topics) {
                        assert(first + views.len() > u64::MAX + 1);
                    }
                }
                return Err(error);
            },
        };
        identifiers.push(accepted.identifier());
        proof {
            let prefix = views.take(done as int + 1);
            assert(prefix.drop_last() =~= views.take(done as int));
            assert forall|i: int| 0 <= i < prefix.len() implies topics_valid(
                #[trigger] prefix[i].entry.topics,
            ) by {
                if i < done {
                    assert(prefix[i] == views.take(done as int)[i]);
                    assert(topics_valid(views.take(done as int)[i].entry.topics));
                } else {
                    assert(prefix[i] == views[done as int]);
                }
            }
            assert(target@ =~= appended_from(start, prefix, first));
        }
        done = done + 1;
    }
    proof {
        assert(views.take(done as int) =~= views);
    }
    Ok(identifiers)
}

/// What an identifier-preserving migration of `records` from `before`
/// to `after` answers: the records imported in identifier order into the
/// empty target, or the refusal of a target that holds records, or the
/// rejection of a record with unacceptable topics.
pub open spec fn preserving_migration(
    before: Seq<StoredRecordView>,
    after: Seq<StoredRecordView>,
    records: Seq<StoredRecordView>,
    refusal: Seq<char>,
    outcome: Result<MigrationOutcome, Error>,
) -> bool {
    let ordered = ordered_by_identifier(records);
    match outcome {
        Ok(done) => {
            &&& before.len() == 0
            &&& all_topics_valid(ordered)
            &&& done.spec_records() == records.len()
            &&& after == imported(before, ordered)
        },
        Err(error) => if before.len() > 0 {
            &&& error matches Error::Migration { reason } && reason@ == refusal
            &&& after == before
        } else {
            &&& !all_topics_valid(ordered)
            &&& error is RequestRejected
        },
    }
}

/// Imports `records` into the empty `target` in identifier order, keeping
/// each identifier; refuses with `refusal` when the target holds records.
pub fn import_preserving_identifiers(
    target: &mut SpiritStore,
    records: Vec<MigratedRecord>,
    refusal: &str,
) -> (outcome: Result<MigrationOutcome, Error>)
    requires
        old(target).wf(),
    ensures
        final(target).wf(),
        final(target).spec_location() == old(target).spec_location(),
        preserving_migration(
            old(target)@,
            final(target)@,
            migrated_views(records@),
            refusal@,
            outcome,
        ),
{
    if target.records_count() > 0 {
        return Err(Error::Migration { reason: refusal.to_string() });
    }
    proof {
        lemma_ordered_rises(migrated_views(records@));
    }
    let ordered = order_by_identifier(records);
    let count = import_each(target, ordered)?;
    Ok(MigrationOutcome::new(count))
}

/// What the identifier migration of `records` from `before` (whose next
/// minted identifier is `first`) to `after` answers.
pub open spec fn reminting_migration(
    before: Seq<StoredRecordView>,
    first: nat,
    after: Seq<StoredRecordView>,
    records: Seq<StoredRecordView>,
    refusal: Seq<char>,
    outcome: Result<(MigrationOutcome, IdentifierMigrationTable), Error>,
) -> bool {
    let ordered = ordered_by_identifier(records);
    match outcome {
        Ok((done, table)) => {
            &&& before.len() == 0
            &&& all_topics_valid(ordered)
            &&& first + ordered.len() <= u64::MAX + 1
            &&& done.spec_records() == records.len()
            &&& after == appended_from(before, ordered, first)
            &&& table.rows@.len() == ordered.len()
            &&& forall|i: int|
                0 <= i < ordered.len() ==> #[trigger] table.rows@[i] == (IdentifierMigrationRow {
                    hash_identifier: RecordIdentifier { value: (first + i) as u64 },
                    ordinal_identifier: ordered[i].id,
                })
            &&& forall|i: int, j: int|
                0 <= i < ordered.len() && 0 <= j < ordered.len() ==> (
                #[trigger] table.rows@[i]).hash_identifier.value != (#[trigger] ordered[j]).id
        },
        Err(error) => if before.len() > 0 {
            &&& error matches Error::Migration { reason } && reason@ == refusal
            &&& after == before
        } else {
            &&& !all_topics_valid(ordered) || first + ordered.len() > u64::MAX + 1
            &&& error is RequestRejected || error is SpiritStore
        },
    }
}

/// Stores `records` in the target in identifier order under freshly minted
/// identifiers, and returns how many it stored with the table from each
/// minted identifier to the record's previous one; refuses with `refusal`
/// when the target holds records.
pub fn reassign_identifiers(
    target: &mut SpiritStore,
    records: Vec<MigratedRecord>,
    refusal: &str,
) -> (outcome: Result<(MigrationOutcome, IdentifierMigrationTable), Error>)
    requires
        old(target).wf(),
    ensures
        final(target).wf(),
        final(target).spec_location() == old(target).spec_location(),
        reminting_migration(
            old(target)@,
            reassigned_first(*old(target), ordered_by_identifier(migrated_views(records@))),
            final(target)@,
            migrated_views(records@),
            refusal@,
            outcome,
        ),
{
    if target.records_count() > 0 {
        return Err(Error::Migration { reason: refusal.to_string() });
    }
    proof {
        lemma_ordered_rises(migrated_views(records@));
    }
    let ordered = order_by_identifier(records);
    let ghost views = migrated_views(ordered@);
    let mut ordinals: Vec<u64> = Vec::new();
    let mut highest: u64 = 0;
    let mut at: usize = 0;
    while at < ordered.len()
        invariant
            views == migrated_views(ordered@),
            at <= ordered@.len(),
            ordinals@.len() == at,
            forall|i: int| 0 <= i < at ==> #[trigger] ordinals@[i] == ordered@[i].identifier.value,
            highest == max_identifier(0, views.take(at as int)),
        decreases ordered@.len() - at,
    {
        let ordinal = ordered[at].identifier.value;
        proof {
            assert(views.take(at + 1).drop_last() =~= views.take(at as int));
            assert(views.take(at + 1).last() == views[at as int]);
        }
        ordinals.push(ordinal);
        if ordinal > highest {
            highest = ordinal;
        }
        at = at + 1;
    }
    proof {
        assert(views.take(ordered@.len() as int) =~= views);
        lemma_max_identifier_bounds(0, views);
    }
    target.reserve_identifiers(highest);
    let total: usize = ordered.len();
    let minted = assert_each(target, ordered)?;
    let mut rows: Vec<IdentifierMigrationRow> = Vec::new();
    let mut index: usize = 0;
    while index < total
        invariant
            index <= total,
            total == views.len(),
            minted@.len() == total,
            ordinals@.len() == total,
            forall|i: int| 0 <= i < total ==> #[trigger] ordinals@[i] == views[i].id,
            rows@.len() == index,
            forall|i: int|
                0 <= i < index ==> #[trigger] rows@[i] == (IdentifierMigrationRow {
                    hash_identifier: minted@[i],
                    ordinal_identifier: ordinals@[i],
                }),
        decreases total - index,
    {
        rows.push(
            IdentifierMigrationRow { hash_identifier: minted[index], ordinal_identifier: ordinals[index] },
        );
        index = index + 1;
    }
    Ok((MigrationOutcome::new(total as u64), IdentifierMigrationTable { rows }))
}

/// A version-0.5 record with the code its identifier was keyed by.
#[derive(Debug, PartialEq, Eq)]
pub struct CodedRecord {
    pub record: MigratedRecord,
    pub code: String,
}

pub open spec fn coded_views(records: Seq<CodedRecord>) -> Seq<(StoredRecordView, Seq<char>)> {
    records.map_values(|record: CodedRecord| (record.record@, record.code@))
}

/// Whether the short-identifier migration keeps an identifier with this
/// code: its length in UTF-8 bytes, as a `usize`, is at most seven.
pub open spec fn keeps_code(code: Seq<char>) -> bool {
    (vstd::utf8::encode_utf8(code).len() as usize) <= SHORT_IDENTIFIER_MAXIMUM_CODE_LENGTH
}

/// Characters below 128 take one byte each in UTF-8.
proof fn lemma_ascii_encoding(chars: Seq<char>)
    requires
        forall|i: int| 0 <= i < chars.len() ==> (#[trigger] chars[i] as u32) < 128,
    ensures
        vstd::utf8::encode_utf8(chars).len() == chars.len(),
    decreases chars.len(),
{
    if chars.len() > 0 {
        assert forall|i: int| 0 <= i < chars.drop_first().len() implies (
        #[trigger] chars.drop_first()[i] as u32) < 128 by {
            assert(chars.drop_first()[i] == chars[i + 1]);
        }
        lemma_ascii_encoding(chars.drop_first());
        assert((chars[0] as u32) < 128);
    }
}

/// Every character of a base-36 numeral is an ASCII digit or letter.
proof fn lemma_base36_ascii(value: nat)
    ensures
        forall|i: int| 0 <= i < base36(value).len() ==> (#[trigger] base36(value)[i] as u32) < 128,
    decreases value,
{
    reveal_strlit("0123456789abcdefghijklmnopqrstuvwxyz");
    assert forall|k: int| 0 <= k < 36 implies (#[trigger] base36_digits()[k] as u32) < 128 by {}
    if value >= 36 {
        lemma_base36_ascii(value / 36);
        let digit = base36_digits()[(value % 36) as int];
        assert forall|i: int| 0 <= i < base36(value).len() implies (#[trigger] base36(value)[i] as u32)
            < 128 by {
            if i < base36(value / 36).len() {
                assert(base36(value)[i] == base36(value / 36)[i]);
            } else {
                assert(base36(value)[i] == digit);
            }
        }
    }
}

/// A re-minted identifier below 36^7 gets a code of four to seven ASCII
/// characters, short enough to be kept, so it is never the long code it
/// replaces.
pub proof fn law_reminted_code_differs(long_code: Seq<char>, minted: nat)
    requires
        !keeps_code(long_code),
        minted < power36(7),
    ensures
        4 <= identifier_code(minted).len() <= 7,
        keeps_code(identifier_code(minted)),
        identifier_code(minted) != long_code,
{
    lemma_short_identifier_code(minted);
    lemma_base36_ascii(minted);
    let code = identifier_code(minted);
    let numeral = base36(minted);
    assert forall|i: int| 0 <= i < code.len() implies (#[trigger] code[i] as u32) < 128 by {
        if numeral.len() < 4 {
            let padding = (4 - numeral.len()) as int;
            if i < padding {
                assert(code[i] == '0');
            } else {
                assert(code[i] == numeral[i - padding]);
            }
        }
    }
    lemma_ascii_encoding(code);
}

/// The records whose identifiers the short-identifier migration keeps, in
/// their order.
pub open spec fn kept_records(records: Seq<(StoredRecordView, Seq<char>)>) -> Seq<StoredRecordView>
    decreases records.len(),
{
    if records.len() == 0 {
        Seq::empty()
    } else if keeps_code(records.last().1) {
        kept_records(records.drop_last()).push(records.last().0)
    } else {
        kept_records(records.drop_last())
    }
}

/// The records the short-identifier migration re-mints, in their order.
pub open spec fn reminted_records(records: Seq<(StoredRecordView, Seq<char>)>) -> Seq<
    StoredRecordView,
>
    decreases records.len(),
{
    if records.len() == 0 {
        Seq::empty()
    } else if keeps_code(records.last().1) {
        reminted_records(records.drop_last())
    } else {
        reminted_records(records.drop_last()).push(records.last().0)
    }
}

/// The identifier policy of the short-identifier migration.
pub struct V050IdentifierPolicy;

impl V050IdentifierPolicy {
    pub fn keeps_identifier(code: &str) -> (keeps: bool)
        ensures
            keeps == keeps_code(code@),
    {
        code.len() <= SHORT_IDENTIFIER_MAXIMUM_CODE_LENGTH
    }
}

/// Splits version-0.5 records into those whose identifiers are kept and
/// those that are re-minted, each in their order.
pub fn group_by_code(records: Vec<CodedRecord>) -> (groups: (Vec<MigratedRecord>, Vec<MigratedRecord>))
    ensures
        migrated_views(groups.0@) == kept_records(coded_views(records@)),
        migrated_views(groups.1@) == reminted_records(coded_views(records@)),
{
    let ghost all = coded_views(records@);
    let count: usize = records.len();
    let mut remaining = records;
    let mut short_records: Vec<MigratedRecord> = Vec::new();
    let mut long_records: Vec<MigratedRecord> = Vec::new();
    let mut taken: usize = 0;
    while remaining.len() > 0
        invariant
            all.len() == count,
            taken + remaining@.len() == count,
            coded_views(remaining@) == all.skip(taken as int),
            migrated_views(short_records@) == kept_records(all.take(taken as int)),
            migrated_views(long_records@) == reminted_records(all.take(taken as int)),
        decreases remaining@.len(),
    {
        let ghost rest_before = remaining@;
        let coded = remaining.remove(0);
        proof {
            assert(coded_views(rest_before)[0] == (rest_before[0].record@, rest_before[0].code@));
            assert(all.skip(taken as int)[0] == all[taken as int]);
            assert forall|k: int| 0 <= k < remaining@.len() implies #[trigger] coded_views(
                remaining@,
            )[k] == all.skip(taken as int + 1)[k] by {
                assert(remaining@[k] == rest_before[k + 1]);
                assert(coded_views(rest_before)[k + 1] == (
                    rest_before[k + 1].record@,
                    rest_before[k + 1].code@,
                ));
                assert(all.skip(taken as int)[k + 1] == all[taken + k + 1]);
            }
            assert(coded_views(remaining@) =~= all.skip(taken as int + 1));
            let prefix = all.take(taken as int + 1);
            assert(prefix.drop_last() =~= all.take(taken as int));
            assert(prefix.last() == (coded.record@, coded.code@));
        }
        let CodedRecord { record, code } = coded;
        if V050IdentifierPolicy::keeps_identifier(code.as_str()) {
            short_records.push(record);
            proof {
                assert(migrated_views(short_records@) =~= kept_records(
                    all.take(taken as int + 1),
                ));
                assert(migrated_views(long_records@) =~= reminted_records(
                    all.take(taken as int + 1),
                ));
            }
        } else {
            long_records.push(record);
            proof {
                assert(migrated_views(short_records@) =~= kept_records(
                    all.take(taken as int + 1),
                ));
                assert(migrated_views(long_records@) =~= reminted_records(
                    all.take(taken as int + 1),
                ));
            }
        }
        taken = taken + 1;
    }
    proof {
        assert(all.take(taken as int) =~= all);
    }
    (short_records, long_records)
}

/// What the short-identifier migration of `records` from `before` (with
/// its high water and commit count) to `after` answers: kept records are
/// imported in identifier order, then the others are appended in
/// identifier order under identifiers minted from the first one above
/// everything the imports used.
pub open spec fn short_identifier_migration(
    before: Seq<StoredRecordView>,
    high: nat,
    commits: nat,
    after: Seq<StoredRecordView>,
    records: Seq<(StoredRecordView, Seq<char>)>,
    refusal: Seq<char>,
    outcome: Result<(MigrationOutcome, ShortIdentifierMigrationTable), Error>,
) -> bool {
    let kept = ordered_by_identifier(kept_records(records));
    let reminted = ordered_by_identifier(reminted_records(records));
    let first = max_nat(max_identifier(high, kept), commits_after(commits, kept.len())) + 1;
    match outcome {
        Ok((done, table)) => {
            &&& before.len() == 0
            &&& all_topics_valid(kept)
            &&& all_topics_valid(reminted)
            &&& first + reminted.len() <= u64::MAX + 1
            &&& done.spec_records() == records.len()
            &&& after == appended_from(imported(before, kept), reminted, first)
            &&& table.rows@.len() == kept.len() + reminted.len()
            &&& forall|i: int|
                0 <= i < kept.len() ==> #[trigger] table.rows@[i] == (ShortIdentifierMigrationRow {
                    previous_identifier: RecordIdentifier { value: kept[i].id },
                    current_identifier: RecordIdentifier { value: kept[i].id },
                })
            &&& forall|i: int|
                0 <= i < reminted.len() ==> #[trigger] table.rows@[kept.len() + i] == (
                ShortIdentifierMigrationRow {
                    previous_identifier: RecordIdentifier { value: reminted[i].id },
                    current_identifier: RecordIdentifier { value: (first + i) as u64 },
                })
        },
        Err(error) => if before.len() > 0 {
            &&& error matches Error::Migration { reason } && reason@ == refusal
            &&& after == before
        } else {
            &&& !all_topics_valid(kept) || !all_topics_valid(reminted) || first + reminted.len()
                > u64::MAX + 1
            &&& error is RequestRejected || error is SpiritStore
        },
    }
}

/// Moves version-0.5 records into the empty `target`: records whose
/// identifier codes are short keep their identifiers, in identifier order;
/// the others follow under freshly minted identifiers, in identifier
/// order. Returns how many records moved with the table from each previous
/// identifier to the current one; refuses with `refusal` when the target
/// holds records.
pub fn keep_short_identifiers(
    target: &mut SpiritStore,
    records: Vec<CodedRecord>,
    refusal: &str,
) -> (outcome: Result<(MigrationOutcome, ShortIdentifierMigrationTable), Error>)
    requires
        old(target).wf(),
    ensures
        final(target).wf(),
        final(target).spec_location() == old(target).spec_location(),
        short_identifier_migration(
            old(target)@,
            old(target).high_water(),
            old(target).commits(),
            final(target)@,
            coded_views(records@),
            refusal@,
            outcome,
        ),
{
    if target.records_count() > 0 {
        return Err(Error::Migration { reason: refusal.to_string() });
    }
    let (short_records, long_records) = group_by_code(records);
    proof {
        lemma_ordered_rises(migrated_views(short_records@));
        lemma_ordered_rises(migrated_views(long_records@));
        assert(short_records@.len() + long_records@.len() == records@.len()) by {
            lemma_groups_partition(coded_views(records@));
        }
    }
    let kept = order_by_identifier(short_records);
    let reminted = order_by_identifier(long_records);
    let ghost kept_views = migrated_views(kept@);
    let ghost reminted_views = migrated_views(reminted@);
    let mut rows: Vec<ShortIdentifierMigrationRow> = Vec::new();
    let mut index: usize = 0;
    while index < kept.len()
        invariant
            index <= kept@.len(),
            kept_views == migrated_views(kept@),
            rows@.len() == index,
            forall|i: int|
                0 <= i < index ==> #[trigger] rows@[i] == (ShortIdentifierMigrationRow {
                    previous_identifier: RecordIdentifier { value: kept_views[i].id },
                    current_identifier: RecordIdentifier { value: kept_views[i].id },
                }),
        decreases kept@.len() - index,
    {
        let identifier = kept[index].identifier;
        rows.push(
            ShortIdentifierMigrationRow { previous_identifier: identifier, current_identifier: identifier },
        );
        index = index + 1;
    }
    let mut previous: Vec<RecordIdentifier> = Vec::new();
    let mut at: usize = 0;
    while at < reminted.len()
        invariant
            at <= reminted@.len(),
            reminted_views == migrated_views(reminted@),
            previous@.len() == at,
            forall|i: int|
                0 <= i < at ==> #[trigger] previous@[i] == (RecordIdentifier {
                    value: reminted_views[i].id,
                }),
        decreases reminted@.len() - at,
    {
        previous.push(reminted[at].identifier);
        at = at + 1;
    }
    let kept_count = import_each(target, kept)?;
    let ghost first = target.next_identifier();
    let reminted_count: usize = reminted.len();
    let minted = assert_each(target, reminted)?;
    let start: usize = rows.len();
    let mut next: usize = 0;
    while next < reminted_count
        invariant
            next <= reminted_count,
            reminted_count == reminted_views.len(),
            minted@.len() == reminted_count,
            previous@.len() == reminted_count,
            start == kept_views.len(),
            forall|i: int|
                0 <= i < reminted_count ==> #[trigger] minted@[i] == (RecordIdentifier {
                    value: (first + i) as u64,
                }),
            forall|i: int|
                0 <= i < reminted_count ==> #[trigger] previous@[i] == (RecordIdentifier {
                    value: reminted_views[i].id,
                }),
            rows@.len() == start + next,
            forall|i: int|
                0 <= i < start ==> #[trigger] rows@[i] == (ShortIdentifierMigrationRow {
                    previous_identifier: RecordIdentifier { value: kept_views[i].id },
                    current_identifier: RecordIdentifier { value: kept_views[i].id },
                }),
            forall|i: int|
                0 <= i < next ==> #[trigger] rows@[start + i] == (ShortIdentifierMigrationRow {
                    previous_identifier: previous@[i],
                    current_identifier: minted@[i],
                }),
        decreases reminted_count - next,
    {
        rows.push(
            ShortIdentifierMigrationRow {
                previous_identifier: previous[next],
                current_identifier: minted[next],
            },
        );
        next = next + 1;
    }
    let total: u64 = kept_count + reminted_count as u64;
    Ok((MigrationOutcome::new(total), ShortIdentifierMigrationTable { rows }))
}

/// The kept and re-minted records together are all the records.
pub proof fn lemma_groups_partition(records: Seq<(StoredRecordView, Seq<char>)>)
    ensures
        kept_records(records).len() + reminted_records(records).len() == records.len(),
    decreases records.len(),
{
    if records.len() > 0 {
        lemma_groups_partition(records.drop_last());
    }
}

/// The version-0.1 to version-0.2 migration: timestamps and identifiers
/// are kept.
pub fn migrate_v010_to_v020(target: &mut SpiritStore, records: Vec<MigratedRecord>) -> (outcome:
    Result<MigrationOutcome, Error>)
    requires
        old(target).wf(),
    ensures
        final(target).wf(),
        final(target).spec_location() == old(target).spec_location(),
        preserving_migration(
            old(target)@,
            final(target)@,
            migrated_views(records@),
            "target database must be empty before timestamp-preserving migration"@,
            outcome,
        ),
{
    import_preserving_identifiers(
        target,
        records,
        "target database must be empty before timestamp-preserving migration",
    )
}

/// The version-0.2 to multi-topic migration: each single topic becomes a
/// topic list; timestamps and identifiers are kept.
pub fn migrate_v020_to_next(target: &mut SpiritStore, records: Vec<MigratedRecord>) -> (outcome:
    Result<MigrationOutcome, Error>)
    requires
        old(target).wf(),
    ensures
        final(target).wf(),
        final(target).spec_location() == old(target).spec_location(),
        preserving_migration(
            old(target)@,
            final(target)@,
            migrated_views(records@),
            "target next database must be empty before multi-topic migration"@,
            outcome,
        ),
{
    import_preserving_identifiers(
        target,
        records,
        "target next database must be empty before multi-topic migration",
    )
}

/// The version-0.3 to version-0.4 migration: records gain a privacy level;
/// timestamps and identifiers are kept.
pub fn migrate_v030_to_v040(target: &mut SpiritStore, records: Vec<MigratedRecord>) -> (outcome:
    Result<MigrationOutcome, Error>)
    requires
        old(target).wf(),
    ensures
        final(target).wf(),
        final(target).spec_location() == old(target).spec_location(),
        preserving_migration(
            old(target)@,
            final(target)@,
            migrated_views(records@),
            "target v0.4 database must be empty before privacy migration"@,
            outcome,
        ),
{
    import_preserving_identifiers(
        target,
        records,
        "target v0.4 database must be empty before privacy migration",
    )
}

impl MigrationConfiguration {
    /// The version-0.1 to version-0.2 migration of this configuration's
    /// source records into its target store.
    pub fn migrate(&self, target: &mut SpiritStore, records: Vec<MigratedRecord>) -> (outcome:
        Result<MigrationOutcome, Error>)
        requires
            old(target).wf(),
        ensures
            final(target).wf(),
            final(target).spec_location() == old(target).spec_location(),
            preserving_migration(
                old(target)@,
                final(target)@,
                migrated_views(records@),
                "target database must be empty before timestamp-preserving migration"@,
                outcome,
            ),
    {
        migrate_v010_to_v020(target, records)
    }

    pub fn migrate_v020_to_next(&self, target: &mut SpiritStore, records: Vec<MigratedRecord>) -> (outcome:
        Result<MigrationOutcome, Error>)
        requires
            old(target).wf(),
        ensures
            final(target).wf(),
            final(target).spec_location() == old(target).spec_location(),
            preserving_migration(
                old(target)@,
                final(target)@,
                migrated_views(records@),
                "target next database must be empty before multi-topic migration"@,
                outcome,
            ),
    {
        migrate_v020_to_next(target, records)
    }

    pub fn migrate_v030_to_v040(&self, target: &mut SpiritStore, records: Vec<MigratedRecord>) -> (outcome:
        Result<MigrationOutcome, Error>)
        requires
            old(target).wf(),
        ensures
            final(target).wf(),
            final(target).spec_location() == old(target).spec_location(),
            preserving_migration(
                old(target)@,
                final(target)@,
                migrated_views(records@),
                "target v0.4 database must be empty before privacy migration"@,
                outcome,
            ),
    {
        migrate_v030_to_v040(target, records)
    }

    /// The identifier migration: every record gets a freshly minted
    /// identifier above every ordinal of the records, so that no minted
    /// identifier is an ordinal already used; the table maps each to the
    /// record's ordinal.
    pub fn migrate_v040_to_v050(&self, target: &mut SpiritStore, records: Vec<MigratedRecord>) -> (outcome:
        Result<(MigrationOutcome, IdentifierMigrationTable), Error>)
        requires
            old(target).wf(),
        ensures
            final(target).wf(),
            final(target).spec_location() == old(target).spec_location(),
            reminting_migration(
                old(target)@,
                reassigned_first(*old(target), ordered_by_identifier(migrated_views(records@))),
                final(target)@,
                migrated_views(records@),
                "target v0.5 database must be empty before identifier migration"@,
                outcome,
            ),
    {
        reassign_identifiers(
            target,
            records,
            "target v0.5 database must be empty before identifier migration",
        )
    }

    /// The short-identifier migration: short identifiers are kept, long
    /// ones re-minted.
    pub fn migrate_v050_to_v052(&self, target: &mut SpiritStore, records: Vec<CodedRecord>) -> (outcome:
        Result<(MigrationOutcome, ShortIdentifierMigrationTable), Error>)
        requires
            old(target).wf(),
        ensures
            final(target).wf(),
            final(target).spec_location() == old(target).spec_location(),
            short_identifier_migration(
                old(target)@,
                old(target).high_water(),
                old(target).commits(),
                final(target)@,
                coded_views(records@),
                "target v0.5.2 database must be empty before short identifier migration"@,
                outcome,
            ),
    {
        keep_short_identifiers(
            target,
            records,
            "target v0.5.2 database must be empty before short identifier migration",
        )
    }
}

/// No two records share an identifier.
pub open spec fn identifiers_distinct(records: Seq<StoredRecordView>) -> bool {
    forall|i: int, j: int|
        0 <= i < records.len() && 0 <= j < records.len() && i != j ==> records[i].id
            != records[j].id
}

proof fn lemma_where_keeps_all(records: Seq<StoredRecordView>, keep: spec_fn(StoredRecordView) -> bool)
    requires
        forall|i: int| 0 <= i < records.len() ==> keep(#[trigger] records[i]),
    ensures
        crate::store::records_where(records, keep) == records,
    decreases records.len(),
{
    if records.len() > 0 {
        let init = records.drop_last();
        assert forall|i: int| 0 <= i < init.len() implies keep(#[trigger] init[i]) by {
            assert(init[i] == records[i]);
        }
        lemma_where_keeps_all(init, keep);
        assert(keep(records[records.len() - 1]));
        assert(init.push(records.last()) =~= records);
    }
}

proof fn lemma_where_keeps_none(records: Seq<StoredRecordView>, keep: spec_fn(StoredRecordView) -> bool)
    requires
        forall|i: int| 0 <= i < records.len() ==> !keep(#[trigger] records[i]),
    ensures
        crate::store::records_where(records, keep) == Seq::<StoredRecordView>::empty(),
    decreases records.len(),
{
    if records.len() > 0 {
        let init = records.drop_last();
        assert forall|i: int| 0 <= i < init.len() implies !keep(#[trigger] init[i]) by {
            assert(init[i] == records[i]);
        }
        lemma_where_keeps_none(init, keep);
        assert(!keep(records[records.len() - 1]));
    }
}

/// Ordering keeps exactly the records it was given.
pub proof fn lemma_ordered_members(records: Seq<StoredRecordView>)
    ensures
        ordered_by_identifier(records).len() == records.len(),
        forall|x: StoredRecordView|
            #[trigger] ordered_by_identifier(records).contains(x) == records.contains(x),
    decreases records.len(),
{
    lemma_ordered_rises(records);
    if records.len() > 0 {
        let init = records.drop_last();
        let sorted = ordered_by_identifier(init);
        lemma_ordered_members(init);
        lemma_ordered_rises(init);
        let x = records.last();
        lemma_insertion_point_bounds(sorted, x.id);
        let at = insertion_point(sorted, x.id);
        let result = sorted.insert(at, x);
        assert forall|y: StoredRecordView| #[trigger] result.contains(y) == records.contains(y) by {
            if result.contains(y) {
                let k = choose|k: int| 0 <= k < result.len() && result[k] == y;
                if k == at {
                    assert(records[records.len() - 1] == y);
                } else {
                    let j = if k < at { k } else { k - 1 };
                    assert(sorted[j] == y);
                    assert(sorted.contains(y));
                    assert(init.contains(y));
                    let m = choose|m: int| 0 <= m < init.len() && init[m] == y;
                    assert(records[m] == y);
                }
            }
            if records.contains(y) {
                let m = choose|m: int| 0 <= m < records.len() && records[m] == y;
                if m == records.len() - 1 {
                    assert(result[at] == y);
                } else {
                    assert(init[m] == y);
                    assert(init.contains(y));
                    assert(sorted.contains(y));
                    let j = choose|j: int| 0 <= j < sorted.len() && sorted[j] == y;
                    if j < at {
                        assert(result[j] == y);
                    } else {
                        assert(result[j + 1] == y);
                    }
                }
            }
        }
    }
}

/// Ordering records with distinct identifiers gives strictly rising
/// identifiers.
pub proof fn lemma_ordered_strictly_rises(records: Seq<StoredRecordView>)
    requires
        identifiers_distinct(records),
    ensures
        forall|i: int, j: int|
            0 <= i < j < ordered_by_identifier(records).len() ==> ordered_by_identifier(
                records,
            )[i].id < ordered_by_identifier(records)[j].id,
{
    let ordered = ordered_by_identifier(records);
    lemma_ordered_rises(records);
    lemma_ordered_members(records);
    assert forall|i: int, j: int| 0 <= i < j < ordered.len() implies ordered[i].id
        < ordered[j].id by {
        assert(ordered[i].id <= ordered[j].id);
        assert(ordered.contains(ordered[i]));
        assert(ordered.contains(ordered[j]));
        let a = choose|a: int| 0 <= a < records.len() && records[a] == ordered[i];
        let b = choose|b: int| 0 <= b < records.len() && records[b] == ordered[j];
        if ordered[i].id == ordered[j].id {
            lemma_rising_records_unique(ordered, i, j, records);
            assert(a != b);
        }
    }
}

/// Two places of an ordering of distinct-identifier records never hold the
/// same record.
proof fn lemma_rising_records_unique(
    ordered: Seq<StoredRecordView>,
    i: int,
    j: int,
    records: Seq<StoredRecordView>,
)
    requires
        ordered == ordered_by_identifier(records),
        identifiers_distinct(records),
        0 <= i < j < ordered.len(),
    ensures
        ordered[i] != ordered[j],
    decreases records.len(),
{
    lemma_ordered_rises(records);
    let init = records.drop_last();
    let sorted = ordered_by_identifier(init);
    let x = records.last();
    lemma_ordered_rises(init);
    lemma_ordered_members(init);
    lemma_insertion_point_bounds(sorted, x.id);
    let at = insertion_point(sorted, x.id);
    assert(ordered == sorted.insert(at, x));
    assert(identifiers_distinct(init)) by {
        assert forall|a: int, b: int|
            0 <= a < init.len() && 0 <= b < init.len() && a != b implies init[a].id
            != init[b].id by {
            assert(records[a] == init[a] && records[b] == init[b]);
        }
    }
    if i == at || j == at {
        let k = if i == at { j - 1 } else { i };
        if ordered[i] == ordered[j] {
            assert(sorted[k] == x);
            assert(sorted.contains(x));
            assert(init.contains(x));
            let m = choose|m: int| 0 <= m < init.len() && init[m] == x;
            assert(records[m].id == records[records.len() - 1].id);
        }
    } else {
        let a = if i < at { i } else { i - 1 };
        let b = if j < at { j } else { j - 1 };
        assert(sorted[a] == ordered[i]);
        assert(sorted[b] == ordered[j]);
        lemma_rising_records_unique(sorted, a, b, init);
    }
}

/// Importing records whose identifiers strictly rise into an empty store
/// gives exactly those records.
proof fn lemma_import_rising(records: Seq<StoredRecordView>)
    requires
        forall|i: int, j: int| 0 <= i < j < records.len() ==> records[i].id < records[j].id,
    ensures
        imported(Seq::empty(), records) == records,
    decreases records.len(),
{
    if records.len() > 0 {
        let init = records.drop_last();
        let last = records.last();
        assert forall|i: int, j: int| 0 <= i < j < init.len() implies init[i].id < init[j].id by {
            assert(init[i] == records[i] && init[j] == records[j]);
        }
        lemma_import_rising(init);
        assert forall|i: int| 0 <= i < init.len() implies (|record: StoredRecordView|
            record.id < last.id)(#[trigger] init[i]) by {
            assert(init[i] == records[i]);
        }
        lemma_where_keeps_all(init, |record: StoredRecordView| record.id < last.id);
        assert forall|i: int| 0 <= i < init.len() implies !(|record: StoredRecordView|
            record.id > last.id)(#[trigger] init[i]) by {
            assert(init[i] == records[i]);
        }
        lemma_where_keeps_none(init, |record: StoredRecordView| record.id > last.id);
        assert(init.push(last) + Seq::<StoredRecordView>::empty() =~= records);
    }
}

/// An identifier-preserving migration into an empty store keeps every
/// record as it was, identifier and capture time included, in identifier
/// order.
pub proof fn law_preserving_migration_keeps_records(records: Seq<StoredRecordView>)
    requires
        identifiers_distinct(records),
    ensures
        imported(Seq::empty(), ordered_by_identifier(records)) == ordered_by_identifier(records),
        forall|x: StoredRecordView|
            #[trigger] ordered_by_identifier(records).contains(x) == records.contains(x),
        forall|i: int, j: int|
            0 <= i < j < ordered_by_identifier(records).len() ==> ordered_by_identifier(
                records,
            )[i].id < ordered_by_identifier(records)[j].id,
{
    lemma_ordered_members(records);
    lemma_ordered_strictly_rises(records);
    lemma_import_rising(ordered_by_identifier(records));
}

} // verus!
