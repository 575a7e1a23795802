//! The intent record store: stamping, identifier minting, record queries,
//! certainty changes and removal-candidate collection.

use vstd::prelude::*;
use vstd::string::{StrSliceExecFns, StringExecFns};

use crate::actors::vocabulary::PrivacyScopedRecordIdentifierQuery;
use crate::error::{Error, RequestRejectionReason};
use crate::record::{
    magnitude_selection_matches, recency_limit, time_key, time_selection_matches,
    topic_selection_matches, Date, Entry, EntryView, Kind, Magnitude, MagnitudeSelection,
    ObservationMode, RecordQuery, RecordedTime, Time, Topic, TopicSelection, Topics,
};

verus! {

/// The identifier a record is stored under.
#[derive(Debug, Clone, Copy, PartialEq, Eq, Hash, Structural)]
pub struct RecordIdentifier {
    pub value: u64,
}

impl RecordIdentifier {
    pub fn new(value: u64) -> (identifier: Self)
        ensures
            identifier.value == value,
    {
        RecordIdentifier { value }
    }

    pub fn value(self) -> (value: u64)
        ensures
            value == self.value,
    {
        self.value
    }
}

/// The lowercase base-36 digits, by value.
pub open spec fn base36_digits() -> Seq<char> {
    "0123456789abcdefghijklmnopqrstuvwxyz"@
}

/// The base-36 numeral of `value`, most significant digit first, with no
/// leading zeros (zero itself is `0`).
pub open spec fn base36(value: nat) -> Seq<char>
    decreases value,
{
    if value < 36 {
        seq![base36_digits()[value as int]]
    } else {
        base36(value / 36).push(base36_digits()[(value % 36) as int])
    }
}

/// The visible code of an identifier: its base-36 numeral, padded with
/// leading zeros to at least four characters.
pub open spec fn identifier_code(value: nat) -> Seq<char> {
    let numeral = base36(value);
    if numeral.len() < 4 {
        Seq::new((4 - numeral.len()) as nat, |i: int| '0') + numeral
    } else {
        numeral
    }
}

/// Thirty-six to the power `exponent`.
pub open spec fn power36(exponent: nat) -> nat
    decreases exponent,
{
    if exponent == 0 {
        1
    } else {
        36 * power36((exponent - 1) as nat)
    }
}

/// A numeral below `36^k` has at most `k` digits, and every numeral has at
/// least one.
pub proof fn lemma_base36_length(value: nat, k: nat)
    requires
        k >= 1,
        value < power36(k),
    ensures
        1 <= base36(value).len() <= k,
    decreases value,
{
    if value >= 36 {
        let below = power36((k - 1) as nat);
        assert(k >= 2) by {
            if k == 1 {
                assert(power36(1) == 36 * power36(0));
            }
        }
        assert(value / 36 < below) by (nonlinear_arith)
            requires
                value < 36 * below,
        ;
        lemma_base36_length(value / 36, (k - 1) as nat);
    }
}

/// Every identifier below `36^7` has a visible code of four to seven
/// characters.
pub proof fn lemma_short_identifier_code(value: nat)
    requires
        value < power36(7),
    ensures
        4 <= identifier_code(value).len() <= 7,
{
    lemma_base36_length(value, 7);
}

/// Appends the base-36 numeral of `value` to `text`.
fn push_base36(text: &mut String, value: u64)
    ensures
        final(text)@ == old(text)@ + base36(value as nat),
    decreases value,
{
    let digits = "0123456789abcdefghijklmnopqrstuvwxyz";
    proof {
        reveal_strlit("0123456789abcdefghijklmnopqrstuvwxyz");
    }
    if value >= 36 {
        push_base36(text, value / 36);
    }
    let digit = (value % 36) as usize;
    let character = digits.substring_char(digit, digit + 1);
    proof {
        assert(character@ =~= seq![base36_digits()[digit as int]]);
    }
    text.append(character);
    proof {
        if value >= 36 {
            assert(final(text)@ =~= old(text)@ + base36(value as nat));
        } else {
            assert(final(text)@ =~= old(text)@ + base36(value as nat));
        }
    }
}

impl RecordIdentifier {
    /// The identifier's visible code: lowercase base 36, at least four
    /// characters.
    pub fn code(&self) -> (code: String)
        ensures
            code@ == identifier_code(self.value as nat),
    {
        let mut numeral = String::new();
        push_base36(&mut numeral, self.value);
        let length = numeral.as_str().unicode_len();
        let mut code = String::new();
        let mut padded: usize = length;
        proof {
            reveal_strlit("0");
        }
        while padded < 4
            invariant
                length == base36(self.value as nat).len(),
                numeral@ == base36(self.value as nat),
                length <= padded <= 4 || (padded == length && length > 4),
                code@ == Seq::new((padded - length) as nat, |i: int| '0'),
            decreases 4 - padded,
        {
            proof {
                reveal_strlit("0");
            }
            code.append("0");
            padded = padded + 1;
            assert(code@ =~= Seq::new((padded - length) as nat, |i: int| '0'));
        }
        code.append(numeral.as_str());
        proof {
            if length < 4 {
                assert(code@ =~= identifier_code(self.value as nat));
            } else {
                assert(code@ =~= identifier_code(self.value as nat));
            }
        }
        code
    }
}

/// An entry together with the daemon's capture date and time.
#[derive(Debug, PartialEq, Eq)]
pub struct StampedEntry {
    entry: Entry,
    date: Date,
    time: Time,
}

/// The plain content of a stamped entry.
pub struct StampedEntryView {
    pub entry: EntryView,
    pub moment: RecordedTime,
}

impl View for StampedEntry {
    type V = StampedEntryView;

    closed spec fn view(&self) -> StampedEntryView {
        StampedEntryView {
            entry: self.entry@,
            moment: RecordedTime { date: self.date, time: self.time },
        }
    }
}

impl Clone for StampedEntry {
    fn clone(&self) -> (stamped: Self)
        ensures
            stamped@ == self@,
    {
        StampedEntry { entry: self.entry.clone(), date: self.date, time: self.time }
    }
}

impl StampedEntry {
    pub fn new(entry: Entry, date: Date, time: Time) -> (stamped: Self)
        ensures
            stamped@.entry == entry@,
            stamped@.moment == (RecordedTime { date, time }),
    {
        StampedEntry { entry, date, time }
    }

    pub fn entry(&self) -> (entry: &Entry)
        ensures
            entry@ == self@.entry,
    {
        &self.entry
    }

    pub fn date(&self) -> (date: Date)
        ensures
            date == self@.moment.date,
    {
        self.date
    }

    pub fn time(&self) -> (time: Time)
        ensures
            time == self@.moment.time,
    {
        self.time
    }

    pub fn recorded_time(&self) -> (moment: RecordedTime)
        ensures
            moment == self@.moment,
    {
        RecordedTime { date: self.date, time: self.time }
    }

    pub fn change_certainty(&mut self, certainty: Magnitude)
        ensures
            final(self)@.moment == old(self)@.moment,
            final(self)@.entry == (EntryView { certainty, ..old(self)@.entry }),
    {
        self.entry.certainty = certainty;
    }
    /// Replaces the user-authored entry, keeping the stamped time.
    pub fn replace_entry(&mut self, entry: Entry)
        ensures
            final(self)@.moment == old(self)@.moment,
            final(self)@.entry == entry@,
    {
        self.entry = entry;
    }
}

/// One stored record: its identifier and its stamped entry.
#[derive(Debug, PartialEq, Eq)]
pub struct StoredRecord {
    pub identifier: RecordIdentifier,
    pub entry: StampedEntry,
}

/// The plain content of a stored record.
pub struct StoredRecordView {
    pub id: u64,
    pub entry: EntryView,
    pub moment: RecordedTime,
}

impl View for StoredRecord {
    type V = StoredRecordView;

    open spec fn view(&self) -> StoredRecordView {
        StoredRecordView {
            id: self.identifier.value,
            entry: self.entry@.entry,
            moment: self.entry@.moment,
        }
    }
}

impl Clone for StoredRecord {
    fn clone(&self) -> (record: Self)
        ensures
            record@ == self@,
    {
        StoredRecord { identifier: self.identifier, entry: self.entry.clone() }
    }
}

/// The views of a list of stored records.
pub open spec fn record_views(records: Seq<StoredRecord>) -> Seq<StoredRecordView> {
    records.map_values(|record: StoredRecord| record@)
}

/// A record without its capture time.
#[derive(Debug, PartialEq, Eq)]
pub struct RecordSummary {
    pub identifier: RecordIdentifier,
    pub topics: Topics,
    pub kind: Kind,
    pub description: crate::record::Description,
    pub certainty: Magnitude,
    pub privacy: Magnitude,
}

/// The plain content of a summary: identifier and entry.
pub open spec fn summary_view(summary: RecordSummary) -> (u64, EntryView) {
    (
        summary.identifier.value,
        EntryView {
            topics: summary.topics@,
            kind: summary.kind,
            description: summary.description@,
            certainty: summary.certainty,
            privacy: summary.privacy,
        },
    )
}

/// The summary of a stored record.
pub open spec fn summary_of(record: StoredRecordView) -> (u64, EntryView) {
    (record.id, record.entry)
}

pub open spec fn summary_views(summaries: Seq<RecordSummary>) -> Seq<(u64, EntryView)> {
    summaries.map_values(|summary: RecordSummary| summary_view(summary))
}

pub open spec fn summaries_of(records: Seq<StoredRecordView>) -> Seq<(u64, EntryView)> {
    records.map_values(|record: StoredRecordView| summary_of(record))
}

/// A record with its capture time.
#[derive(Debug, PartialEq, Eq)]
pub struct RecordProvenance {
    pub summary: RecordSummary,
    pub date: Date,
    pub time: Time,
}

pub open spec fn provenance_view(provenance: RecordProvenance) -> StoredRecordView {
    StoredRecordView {
        id: provenance.summary.identifier.value,
        entry: summary_view(provenance.summary).1,
        moment: RecordedTime { date: provenance.date, time: provenance.time },
    }
}

pub open spec fn provenance_views(provenances: Seq<RecordProvenance>) -> Seq<StoredRecordView> {
    provenances.map_values(|provenance: RecordProvenance| provenance_view(provenance))
}

impl StoredRecord {
    pub fn new(identifier: RecordIdentifier, entry: StampedEntry) -> (record: Self)
        ensures
            record@.id == identifier.value,
            record@.entry == entry@.entry,
            record@.moment == entry@.moment,
    {
        StoredRecord { identifier, entry }
    }

    pub fn summary(&self) -> (summary: RecordSummary)
        ensures
            summary_view(summary) == summary_of(self@),
    {
        RecordSummary {
            identifier: self.identifier,
            topics: self.entry.entry.topics.clone(),
            kind: self.entry.entry.kind,
            description: self.entry.entry.description.clone(),
            certainty: self.entry.entry.certainty,
            privacy: self.entry.entry.privacy,
        }
    }

    pub fn provenance(&self) -> (provenance: RecordProvenance)
        ensures
            provenance_view(provenance) == self@,
    {
        RecordProvenance { summary: self.summary(), date: self.entry.date, time: self.entry.time }
    }

    pub fn recorded_time(&self) -> (moment: RecordedTime)
        ensures
            moment == self@.moment,
    {
        self.entry.recorded_time()
    }
}

/// Whether a record passes every filter of a query.
pub open spec fn record_matches(query: RecordQuery, record: StoredRecordView) -> bool {
    &&& topic_selection_matches(query.topic_selection, record.entry.topics)
    &&& (match query.kind {
        Some(kind) => record.entry.kind == kind,
        None => true,
    })
    &&& magnitude_selection_matches(query.certainty_selection, record.entry.certainty)
    &&& time_selection_matches(query.recorded_time_selection, record.moment)
    &&& magnitude_selection_matches(query.privacy_selection, record.entry.privacy)
}

/// The records, in order, that satisfy `keep`.
pub open spec fn records_where(
    records: Seq<StoredRecordView>,
    keep: spec_fn(StoredRecordView) -> bool,
) -> Seq<StoredRecordView>
    decreases records.len(),
{
    if records.len() == 0 {
        records
    } else {
        let earlier = records_where(records.drop_last(), keep);
        if keep(records.last()) {
            earlier.push(records.last())
        } else {
            earlier
        }
    }
}

/// The records, in order, that pass every filter of a query.
pub open spec fn matching_records(query: RecordQuery, records: Seq<StoredRecordView>) -> Seq<
    StoredRecordView,
> {
    records_where(records, |record: StoredRecordView| record_matches(query, record))
}

/// Recency rank: capture moment first, identifier to break ties.
pub open spec fn recency_rank(record: StoredRecordView) -> int {
    time_key(record.moment) * 0x1_0000_0000_0000_0000 + record.id
}

/// `records` with `record` placed before the first record it outranks.
pub open spec fn insert_newest(record: StoredRecordView, records: Seq<StoredRecordView>) -> Seq<
    StoredRecordView,
>
    decreases records.len(),
{
    if records.len() == 0 {
        seq![record]
    } else if recency_rank(record) > recency_rank(records[0]) {
        seq![record] + records
    } else {
        seq![records[0]] + insert_newest(record, records.drop_first())
    }
}

/// The records ordered newest first (by capture moment, then identifier).
pub open spec fn newest_first(records: Seq<StoredRecordView>) -> Seq<StoredRecordView>
    decreases records.len(),
{
    if records.len() == 0 {
        records
    } else {
        insert_newest(records.last(), newest_first(records.drop_last()))
    }
}

/// What a query answers: the matching records in identifier order, or, for
/// a recency depth, the newest matching records up to the depth's limit,
/// newest first.
pub open spec fn query_result(query: RecordQuery, records: Seq<StoredRecordView>) -> Seq<
    StoredRecordView,
> {
    let matching = matching_records(query, records);
    match recency_limit(query.recorded_time_selection) {
        Some(limit) => {
            let ordered = newest_first(matching);
            if limit < ordered.len() {
                ordered.take(limit as int)
            } else {
                ordered
            }
        },
        None => matching,
    }
}

/// Whether `record` outranks `other` in recency.
fn outranks(record: &StoredRecord, other: &StoredRecord) -> (newer: bool)
    ensures
        newer == (recency_rank(record@) > recency_rank(other@)),
{
    let key = record.recorded_time().key();
    let other_key = other.recorded_time().key();
    key > other_key || (key == other_key && record.identifier.value > other.identifier.value)
}

proof fn lemma_insert_newest_at(record: StoredRecordView, records: Seq<StoredRecordView>, at: int)
    requires
        0 <= at <= records.len(),
        forall|j: int| 0 <= j < at ==> recency_rank(record) <= recency_rank(#[trigger] records[j]),
        at < records.len() ==> recency_rank(record) > recency_rank(records[at]),
    ensures
        insert_newest(record, records) == records.insert(at, record),
    decreases at,
{
    if records.len() == 0 {
        assert(records.insert(at, record) =~= seq![record]);
    } else if at == 0 {
        assert(records.insert(0, record) =~= seq![record] + records);
    } else {
        let rest = records.drop_first();
        assert forall|j: int| 0 <= j < at - 1 implies recency_rank(record) <= recency_rank(
            #[trigger] rest[j],
        ) by {
            assert(rest[j] == records[j + 1]);
        }
        lemma_insert_newest_at(record, rest, at - 1);
        assert(seq![records[0]] + rest.insert(at - 1, record) =~= records.insert(at, record));
    }
}

/// Places `record` into `ordered` before the first record it outranks.
fn insert_newest_exec(ordered: &mut Vec<StoredRecord>, record: StoredRecord)
    ensures
        record_views(final(ordered)@) == insert_newest(record@, record_views(old(ordered)@)),
{
    let ghost before = record_views(ordered@);
    let mut at: usize = 0;
    while at < ordered.len()
        invariant
            ordered@ == old(ordered)@,
            before == record_views(ordered@),
            at <= ordered@.len(),
            forall|j: int| 0 <= j < at ==> recency_rank(record@) <= recency_rank(#[trigger] before[j]),
        ensures
            at <= ordered@.len(),
            at < ordered@.len() ==> recency_rank(record@) > recency_rank(before[at as int]),
        decreases ordered@.len() - at,
    {
        if outranks(&record, &ordered[at]) {
            break;
        }
        at += 1;
    }
    proof {
        lemma_insert_newest_at(record@, before, at as int);
    }
    let ghost view = record@;
    ordered.insert(at, record);
    assert(record_views(ordered@) =~= before.insert(at as int, view));
}

/// Orders records newest first.
fn order_newest_first(records: &Vec<StoredRecord>) -> (ordered: Vec<StoredRecord>)
    ensures
        record_views(ordered@) == newest_first(record_views(records@)),
{
    let ghost all = record_views(records@);
    let mut ordered: Vec<StoredRecord> = Vec::new();
    let mut taken: usize = 0;
    assert(record_views(ordered@) =~= newest_first(all.take(0)));
    while taken < records.len()
        invariant
            all == record_views(records@),
            taken <= records@.len(),
            record_views(ordered@) == newest_first(all.take(taken as int)),
        decreases records@.len() - taken,
    {
        let record = records[taken].clone();
        insert_newest_exec(&mut ordered, record);
        assert(all.take(taken + 1).drop_last() =~= all.take(taken as int));
        taken += 1;
    }
    assert(all.take(records@.len() as int) =~= all);
    ordered
}

/// Where the store lives.
#[derive(Debug, PartialEq, Eq)]
pub struct StoreLocation {
    path: String,
}

impl Clone for StoreLocation {
    fn clone(&self) -> (location: Self)
        ensures
            location@ == self@,
    {
        StoreLocation { path: self.path.clone() }
    }
}

impl View for StoreLocation {
    type V = Seq<char>;

    closed spec fn view(&self) -> Seq<char> {
        self.path@
    }
}

impl StoreLocation {
    pub fn new(path: String) -> (location: Self)
        ensures
            location@ == path@,
    {
        StoreLocation { path }
    }

    pub fn as_path(&self) -> (path: &str)
        ensures
            path@ == self@,
    {
        self.path.as_str()
    }
}

/// An entry's topics are acceptable: at least one, and none twice.
pub open spec fn topics_valid(topics: Seq<Seq<char>>) -> bool {
    topics.len() > 0 && topics.no_duplicates()
}

/// The topic at `at` repeats an earlier one.
pub open spec fn repeats_earlier(topics: Seq<Seq<char>>, at: int) -> bool {
    exists|earlier: int| 0 <= earlier < at && topics[earlier] == topics[at]
}

/// `topic` is the first topic that repeats an earlier one.
pub open spec fn is_first_repeat(topics: Seq<Seq<char>>, topic: Seq<char>) -> bool {
    exists|at: int|
        0 <= at < topics.len() && topic == topics[at] && repeats_earlier(topics, at) && forall|
            before: int,
        | 0 <= before < at ==> !#[trigger] repeats_earlier(topics, before)
}

/// Checks an entry's topics: at least one, and none twice.
#[verifier::loop_isolation(false)]
pub fn validate_topics(topics: &Topics) -> (checked: Result<(), Error>)
    ensures
        checked is Ok <==> topics_valid(topics@),
        checked matches Err(error) ==> (if topics@.len() == 0 {
            error == (Error::RequestRejected { reason: RequestRejectionReason::EmptyTopics })
        } else {
            error matches Error::RequestRejected {
                reason: RequestRejectionReason::DuplicateTopic { topic },
            } && is_first_repeat(topics@, topic@)
        }),
{
    if topics.is_empty() {
        return Err(Error::RequestRejected { reason: RequestRejectionReason::EmptyTopics });
    }
    let listed = topics.as_slice();
    let ghost words = topics@;
    assert(crate::record::topic_words(listed@) == words);
    let mut at: usize = 0;
    while at < listed.len()
        invariant
            crate::record::topic_words(listed@) == words,
            words.len() == listed@.len(),
            at <= listed@.len(),
            forall|j: int| 0 <= j < listed@.len() ==> #[trigger] words[j] == listed@[j]@,
            forall|j: int| 0 <= j < at ==> !#[trigger] repeats_earlier(words, j),
        decreases listed@.len() - at,
    {
        let mut earlier: usize = 0;
        while earlier < at
            invariant
                at < listed@.len(),
                earlier <= at,
                forall|j: int| 0 <= j < listed@.len() ==> #[trigger] words[j] == listed@[j]@,
                forall|j: int| 0 <= j < earlier ==> words[j] != words[at as int],
            decreases at - earlier,
        {
            if listed[earlier].same_topic(&listed[at]) {
                assert(words[earlier as int] == words[at as int]);
                assert(repeats_earlier(words, at as int));
                assert(!words.no_duplicates());
                let topic = listed[at].to_text();
                return Err(
                    Error::RequestRejected {
                        reason: RequestRejectionReason::DuplicateTopic { topic },
                    },
                );
            }
            earlier += 1;
        }
        assert(!repeats_earlier(words, at as int));
        at += 1;
    }
    assert(words.no_duplicates()) by {
        assert forall|i: int, j: int|
            0 <= i < words.len() && 0 <= j < words.len() && i != j implies words[i] != words[j] by {
            if i < j {
                assert(!repeats_earlier(words, j));
            } else {
                assert(!repeats_earlier(words, i));
            }
        }
    }
    Ok(())
}

/// The receipt for an accepted entry: the identifier it was stored under.
#[derive(Debug, Clone, Copy, PartialEq, Eq, Structural)]
pub struct RecordAccepted {
    pub identifier: RecordIdentifier,
}

impl RecordAccepted {
    pub fn new(identifier: RecordIdentifier) -> (accepted: Self)
        ensures
            accepted.identifier == identifier,
    {
        RecordAccepted { identifier }
    }

    pub fn identifier(&self) -> (identifier: RecordIdentifier)
        ensures
            identifier == self.identifier,
    {
        self.identifier
    }
}

/// The receipt for a removed record.
#[derive(Debug, Clone, Copy, PartialEq, Eq, Structural)]
pub struct RecordRemoved {
    pub identifier: RecordIdentifier,
}

impl RecordRemoved {
    pub fn new(identifier: RecordIdentifier) -> (removed: Self)
        ensures
            removed.identifier == identifier,
    {
        RecordRemoved { identifier }
    }
}

/// A request to set one record's certainty.
#[derive(Debug, Clone, Copy, PartialEq, Eq, Structural)]
pub struct CertaintyChange {
    pub identifier: RecordIdentifier,
    pub certainty: Magnitude,
}

/// The receipt for a certainty change.
#[derive(Debug, Clone, Copy, PartialEq, Eq, Structural)]
pub struct CertaintyChanged {
    pub identifier: RecordIdentifier,
    pub certainty: Magnitude,
}

/// The records, in order, whose identifier is not `identifier`.
pub open spec fn without_identifier(records: Seq<StoredRecordView>, identifier: u64) -> Seq<
    StoredRecordView,
> {
    records_where(records, |record: StoredRecordView| record.id != identifier)
}

/// Identifiers strictly increase along the sequence.
pub open spec fn identifiers_increase(records: Seq<StoredRecordView>) -> bool {
    forall|i: int, j: int| 0 <= i < j < records.len() ==> records[i].id < records[j].id
}

/// The commit count after `count` more commits: it stops at `u64::MAX`.
pub open spec fn commits_after(commits: nat, count: nat) -> nat {
    if commits + count > u64::MAX {
        u64::MAX as nat
    } else {
        commits + count
    }
}

pub open spec fn max_nat(a: nat, b: nat) -> nat {
    if a >= b {
        a
    } else {
        b
    }
}

/// A request to rewrite one stored record's user-authored fields.
#[derive(Debug, PartialEq, Eq)]
pub struct RecordChange {
    pub record_identifier: RecordIdentifier,
    pub entry: Entry,
}

/// The receipt for a rewritten record.
#[derive(Debug, Clone, Copy, PartialEq, Eq, Structural)]
pub struct RecordMutationApplied {
    pub identifier: RecordIdentifier,
}

/// What rewriting a record does: the named record gets the new entry and
/// keeps its identifier and stamped time, and nothing else changes; an
/// entry with unacceptable topics, or an identifier no record has, is
/// refused and the store is left as it was.
pub open spec fn record_change_outcome(
    before: SpiritStore,
    after: SpiritStore,
    change: RecordChange,
    changed: Result<RecordMutationApplied, Error>,
) -> bool {
    match changed {
        Ok(receipt) => {
            &&& receipt == (RecordMutationApplied { identifier: change.record_identifier })
            &&& topics_valid(change.entry@.topics)
            &&& exists|i: int|
                0 <= i < before@.len() && #[trigger] before@[i].id == change.record_identifier.value
            &&& after@.len() == before@.len()
            &&& forall|i: int|
                0 <= i < before@.len() ==> #[trigger] after@[i] == if before@[i].id
                    == change.record_identifier.value {
                    StoredRecordView { entry: change.entry@, ..before@[i] }
                } else {
                    before@[i]
                }
            &&& after.high_water() == before.high_water()
            &&& after.commits() == commits_after(before.commits(), 1)
        },
        Err(error) => {
            &&& after@ == before@
            &&& after.commits() == before.commits()
            &&& after.high_water() == before.high_water()
            &&& error is RequestRejected
            &&& topics_valid(change.entry@.topics) ==> (error matches Error::RequestRejected {
                reason: RequestRejectionReason::RecordNotStored { collection, identifier },
            } && collection@ == "records"@ && identifier == change.record_identifier.value
                && forall|i: int|
                0 <= i < before@.len() ==> #[trigger] before@[i].id
                    != change.record_identifier.value)
        },
    }
}

/// What changing a certainty does: the named record gets the new
/// certainty and nothing else changes, or, when no record has that
/// identifier, the store is left as it was and the change is refused.
pub open spec fn certainty_outcome(
    before: SpiritStore,
    after: SpiritStore,
    change: CertaintyChange,
    changed: Result<CertaintyChanged, Error>,
) -> bool {
    match changed {
        Ok(receipt) => {
            &&& receipt == (CertaintyChanged {
                identifier: change.identifier,
                certainty: change.certainty,
            })
            &&& exists|i: int| 0 <= i < before@.len() && #[trigger] before@[i].id == change.identifier.value
            &&& after@.len() == before@.len()
            &&& forall|i: int| 0 <= i < before@.len() ==> #[trigger] after@[i] == if before@[i].id
                == change.identifier.value {
                StoredRecordView {
                    entry: EntryView { certainty: change.certainty, ..before@[i].entry },
                    ..before@[i]
                }
            } else {
                before@[i]
            }
            &&& after.high_water() == before.high_water()
            &&& after.commits() == commits_after(before.commits(), 1)
        },
        Err(error) => {
            &&& error matches Error::RequestRejected {
                reason: RequestRejectionReason::RecordNotStored { collection, identifier },
            } && collection@ == "records"@ && identifier == change.identifier.value
            &&& forall|i: int| 0 <= i < before@.len() ==> #[trigger] before@[i].id != change.identifier.value
            &&& after@ == before@
            &&& after.commits() == before.commits()
            &&& after.high_water() == before.high_water()
        },
    }
}

/// What collecting removal candidates does: with an exact-`Zero` public
/// query, the candidates' summaries are preserved and the candidates
/// retracted (or, when the archive could not be written, every candidate
/// is reported skipped and nothing changes); any other query is refused
/// and nothing changes.
pub open spec fn collection_outcome(
    before: SpiritStore,
    after: SpiritStore,
    collection: RemovalCandidateCollection,
    archive_written: bool,
    collected: Result<RemovalCandidatesCollected, Error>,
) -> bool {
    match collected {
        Ok(receipt) => {
            let candidates = query_result(collection.record_query, before@);
            &&& collection.is_exact_zero_candidate_query_spec()
            &&& if archive_written || collection.output_target is Print {
                &&& receipt.spec_archived() == summaries_of(candidates)
                &&& receipt.spec_removed() == record_ids(candidates)
                &&& receipt.spec_skipped().len() == 0
                &&& after@ == without_identifiers(before@, record_ids(candidates))
                &&& after.high_water() == before.high_water()
                &&& after.commits() == commits_after(before.commits(), candidates.len())
            } else {
                &&& receipt.spec_archived().len() == 0
                &&& receipt.spec_removed().len() == 0
                &&& all_skipped(record_ids(candidates), receipt.spec_skipped())
                &&& after@ == before@
                &&& after.commits() == before.commits()
                &&& after.high_water() == before.high_water()
            }
        },
        Err(error) => {
            &&& !collection.is_exact_zero_candidate_query_spec()
            &&& error == (Error::RequestRejected {
                reason: RequestRejectionReason::CollectionQueryNotExactZeroPublic,
            })
            &&& after@ == before@
            &&& after.commits() == before.commits()
            &&& after.high_water() == before.high_water()
        },
    }
}

/// The intent record store.
///
/// Records are kept in identifier order. Besides the live records the
/// store remembers how many commits it has made and the highest record
/// identifier any commit has touched, so that a removed identifier is
/// never minted again.
pub struct SpiritStore {
    location: StoreLocation,
    records: Vec<StoredRecord>,
    commit_sequence: u64,
    logged_identifier: Option<u64>,
}

impl View for SpiritStore {
    type V = Seq<StoredRecordView>;

    closed spec fn view(&self) -> Seq<StoredRecordView> {
        record_views(self.records@)
    }
}

impl SpiritStore {
    /// The number of commits made so far, as the store counts it.
    pub closed spec fn commit_count(&self) -> u64 {
        self.commit_sequence
    }

    /// The number of commits made so far.
    pub open spec fn commits(&self) -> nat {
        self.commit_count() as nat
    }

    /// The highest record identifier any commit has touched, if any.
    pub closed spec fn logged_identifier(&self) -> Option<u64> {
        self.logged_identifier
    }

    /// The highest identifier ever used, zero when none.
    pub open spec fn high_water(&self) -> nat {
        match self.logged_identifier() {
            Some(value) => value as nat,
            None => 0,
        }
    }

    /// The identifier the next accepted entry receives: one above every
    /// identifier ever used and above the commit count.
    pub open spec fn next_identifier(&self) -> nat {
        max_nat(self.high_water(), self.commits()) + 1
    }

    pub closed spec fn spec_location(&self) -> Seq<char> {
        self.location@
    }

    /// Identifiers increase, every live identifier is at most the high
    /// water, and every stored entry has acceptable topics.
    pub open spec fn wf(&self) -> bool {
        &&& identifiers_increase(self@)
        &&& forall|i: int| 0 <= i < self@.len() ==> #[trigger] self@[i].id <= self.high_water()
        &&& self@.len() > 0 ==> self.logged_identifier() is Some
        &&& forall|i: int| 0 <= i < self@.len() ==> topics_valid(#[trigger] self@[i].entry.topics)
    }

    /// Opens an empty store at `location`.
    pub fn open(location: &StoreLocation) -> (store: Self)
        ensures
            store.wf(),
            store@ == Seq::<StoredRecordView>::empty(),
            store.commits() == 0,
            store.logged_identifier() is None,
            store.spec_location() == location@,
    {
        let store = SpiritStore {
            location: location.clone(),
            records: Vec::new(),
            commit_sequence: 0,
            logged_identifier: None,
        };
        assert(store@ =~= Seq::<StoredRecordView>::empty());
        store
    }

    pub fn location(&self) -> (location: &StoreLocation)
        ensures
            location@ == self.spec_location(),
    {
        &self.location
    }

    /// The number of commits made so far.
    pub fn commit_sequence(&self) -> (sequence: u64)
        ensures
            sequence == self.commits(),
    {
        self.commit_sequence
    }

    /// The highest identifier ever used, as the next mint sees it.
    fn identifier_high_water(&self) -> (high: u64)
        requires
            self.wf(),
        ensures
            high == max_nat(self.high_water(), self.commits()),
    {
        let live = if self.records.len() == 0 {
            0
        } else {
            let last = self.records.len() - 1;
            assert(self@[last as int].id == self.records@[last as int].identifier.value);
            self.records[last].identifier.value
        };
        let logged = match self.logged_identifier {
            Some(value) => value,
            None => 0,
        };
        let mut high = if live >= logged {
            live
        } else {
            logged
        };
        if self.commit_sequence > high {
            high = self.commit_sequence;
        }
        high
    }

    fn note_commit(&mut self, identifier: u64)
        ensures
            final(self).records@ == old(self).records@,
            final(self).location == old(self).location,
            final(self).commits() == if old(self).commits() < u64::MAX {
                old(self).commits() + 1
            } else {
                old(self).commits()
            },
            final(self).high_water() == max_nat(old(self).high_water(), identifier as nat),
            final(self).logged_identifier() is Some,
    {
        if self.commit_sequence < u64::MAX {
            self.commit_sequence = self.commit_sequence + 1;
        }
        self.logged_identifier = match self.logged_identifier {
            Some(value) => Some(if value >= identifier { value } else { identifier }),
            None => Some(identifier),
        };
    }

    /// Marks every identifier up to `identifier` as used, so that none of
    /// them is minted from now on; the records stay as they are.
    pub fn reserve_identifiers(&mut self, identifier: u64)
        requires
            old(self).wf(),
        ensures
            final(self).wf(),
            final(self).spec_location() == old(self).spec_location(),
            final(self)@ == old(self)@,
            final(self).commits() == old(self).commits(),
            final(self).high_water() == max_nat(old(self).high_water(), identifier as nat),
    {
        self.logged_identifier = match self.logged_identifier {
            Some(value) => Some(if value >= identifier { value } else { identifier }),
            None => Some(identifier),
        };
    }

    /// Stores a stamped entry under a freshly minted identifier.
    pub fn assert_entry(&mut self, entry: StampedEntry) -> (accepted: Result<RecordAccepted, Error>)
        requires
            old(self).wf(),
        ensures
            final(self).wf(),
            final(self).spec_location() == old(self).spec_location(),
            match accepted {
                Ok(receipt) => {
                    &&& topics_valid(entry@.entry.topics)
                    &&& receipt.identifier.value == old(self).next_identifier()
                    &&& final(self)@ == old(self)@.push(
                        StoredRecordView {
                            id: receipt.identifier.value,
                            entry: entry@.entry,
                            moment: entry@.moment,
                        },
                    )
                    &&& final(self).high_water() == receipt.identifier.value
                    &&& final(self).commits() == old(self).commits() + 1
                    &&& final(self).next_identifier() == old(self).next_identifier() + 1
                    &&& final(self).logged_identifier() == Some(receipt.identifier.value)
                },
                Err(error) => {
                    &&& final(self)@ == old(self)@
                    &&& final(self).commits() == old(self).commits()
                    &&& final(self).high_water() == old(self).high_water()
                    &&& if !topics_valid(entry@.entry.topics) {
                        error is RequestRejected
                    } else {
                        error is SpiritStore && old(self).next_identifier() > u64::MAX
                    }
                },
            },
    {
        validate_topics(&entry.entry.topics)?;
        let high = self.identifier_high_water();
        if high == u64::MAX {
            return Err(Error::SpiritStore { reason: "record identifier space is exhausted".to_string() });
        }
        let identifier = RecordIdentifier::new(high + 1);
        let ghost before = self@;
        let record = StoredRecord::new(identifier, entry);
        let ghost view = record@;
        self.records.push(record);
        self.note_commit(identifier.value);
        assert(self@ =~= before.push(view));
        Ok(RecordAccepted::new(identifier))
    }

    /// The stored record with `identifier`, if any.
    fn position_of(&self, identifier: RecordIdentifier) -> (position: Option<usize>)
        requires
            self.wf(),
        ensures
            match position {
                Some(at) => at < self@.len() && self@[at as int].id == identifier.value,
                None => forall|i: int| 0 <= i < self@.len() ==> #[trigger] self@[i].id != identifier.value,
            },
    {
        let mut at: usize = 0;
        while at < self.records.len()
            invariant
                at <= self@.len(),
                self@.len() == self.records@.len(),
                forall|i: int| 0 <= i < self@.len() ==> #[trigger] self@[i] == self.records@[i]@,
                forall|i: int| 0 <= i < at ==> #[trigger] self@[i].id != identifier.value,
            decreases self@.len() - at,
        {
            if self.records[at].identifier.value == identifier.value {
                return Some(at);
            }
            at += 1;
        }
        None
    }

    /// Removes the record with `identifier`; removing an absent record
    /// changes nothing but the commit count.
    pub fn remove_entry(&mut self, identifier: RecordIdentifier) -> (removed: Result<RecordRemoved, Error>)
        requires
            old(self).wf(),
        ensures
            final(self).wf(),
            final(self).spec_location() == old(self).spec_location(),
            removed == Ok::<RecordRemoved, Error>(RecordRemoved { identifier }),
            final(self)@ == without_identifier(old(self)@, identifier.value),
            final(self).high_water() == max_nat(old(self).high_water(), identifier.value as nat),
            final(self).commits() == commits_after(old(self).commits(), 1),
            final(self).next_identifier() >= old(self).next_identifier(),
            identifier.value < final(self).next_identifier(),
    {
        let ghost before = self@;
        let mut kept: Vec<StoredRecord> = Vec::new();
        let mut taken = Vec::new();
        std::mem::swap(&mut taken, &mut self.records);
        assert(record_views(taken@) == before);
        let mut at: usize = 0;
        while at < taken.len()
            invariant
                record_views(taken@) == before,
                at <= taken@.len(),
                record_views(kept@) == without_identifier(before.take(at as int), identifier.value),
            decreases taken@.len() - at,
        {
            let ghost prefix = before.take(at as int);
            assert(before.take(at + 1).drop_last() =~= prefix);
            if taken[at].identifier.value != identifier.value {
                let record = taken[at].clone();
                kept.push(record);
                assert(record_views(kept@) =~= without_identifier(prefix, identifier.value).push(
                    before[at as int],
                ));
            } else {
                assert(without_identifier(before.take(at + 1), identifier.value)
                    == without_identifier(prefix, identifier.value));
            }
            at += 1;
        }
        assert(before.take(taken@.len() as int) =~= before);
        self.records = kept;
        proof {
            lemma_records_where(before, |record: StoredRecordView| record.id != identifier.value);
        }
        self.note_commit(identifier.value);
        assert forall|i: int| 0 <= i < self@.len() implies #[trigger] self@[i].id <= self.high_water()
            && topics_valid(self@[i].entry.topics) by {
            assert(self@.contains(self@[i]));
            let k = choose|k: int| 0 <= k < before.len() && before[k] == self@[i];
        }
        assert(identifiers_increase(self@));
        assert(self.logged_identifier() is Some);
        assert(forall|i: int| 0 <= i < self@.len() ==> #[trigger] self@[i].id <= self.high_water());
        assert(forall|i: int| 0 <= i < self@.len() ==> topics_valid(#[trigger] self@[i].entry.topics));
        assert(self.wf());
        Ok(RecordRemoved::new(identifier))
    }

    /// The records a query answers (see `query_result`).
    pub fn records_for_query(&self, query: &RecordQuery) -> (records: Vec<StoredRecord>)
        ensures
            record_views(records@) == query_result(*query, self@),
    {
        let ghost all = self@;
        let ghost keep = |record: StoredRecordView| record_matches(*query, record);
        let mut matching: Vec<StoredRecord> = Vec::new();
        let mut at: usize = 0;
        while at < self.records.len()
            invariant
                all == self@,
                keep == (|record: StoredRecordView| record_matches(*query, record)),
                at <= self.records@.len(),
                record_views(matching@) == records_where(all.take(at as int), keep),
            decreases self.records@.len() - at,
        {
            assert(all.take(at + 1).drop_last() =~= all.take(at as int));
            if matches_query(query, &self.records[at]) {
                matching.push(self.records[at].clone());
                assert(record_views(matching@) =~= records_where(all.take(at as int), keep).push(
                    all[at as int],
                ));
            }
            at += 1;
        }
        assert(all.take(self.records@.len() as int) =~= all);
        match query.recorded_time_selection.recency_limit() {
            Some(limit) => {
                let mut ordered = order_newest_first(&matching);
                let ghost full = record_views(ordered@);
                if limit < ordered.len() {
                    ordered.truncate(limit);
                    assert(record_views(ordered@) =~= full.take(limit as int));
                }
                ordered
            },
            None => matching,
        }
    }

    /// Answers a record query in the shape it asks for.
    pub fn observe_records(&self, observation: &RecordObservation) -> (reply: Result<ObservedRecords, Error>)
        ensures
            reply matches Ok(shown) && shows_records(
                shown,
                observation.query.mode,
                query_result(observation.query, self@),
            ),
    {
        let records = self.records_for_query(&observation.query);
        Ok(reply_for(&records, observation.query.mode))
    }

    /// Answers an exact identifier lookup.
    pub fn observe_record_identifiers(&self, observation: RecordIdentifierObservation) -> (reply: Result<ObservedRecords, Error>)
        ensures
            reply matches Ok(shown) && shows_records(
                shown,
                observation.query.mode,
                identifier_result(observation, self@),
            ),
    {
        let ghost all = self@;
        let ghost keep = |record: StoredRecordView|
            record.id == observation.query.identifier.value && magnitude_selection_matches(
                observation.privacy_selection,
                record.entry.privacy,
            );
        let mut found: Vec<StoredRecord> = Vec::new();
        let mut at: usize = 0;
        while at < self.records.len()
            invariant
                all == self@,
                keep == (|record: StoredRecordView|
                    record.id == observation.query.identifier.value && magnitude_selection_matches(
                        observation.privacy_selection,
                        record.entry.privacy,
                    )),
                at <= self.records@.len(),
                record_views(found@) == records_where(all.take(at as int), keep),
            decreases self.records@.len() - at,
        {
            assert(all.take(at + 1).drop_last() =~= all.take(at as int));
            let record = &self.records[at];
            if observation.query.contains(record.identifier)
                && observation.privacy_selection.matches(record.entry.entry.privacy) {
                found.push(record.clone());
                assert(record_views(found@) =~= records_where(all.take(at as int), keep).push(
                    all[at as int],
                ));
            }
            at += 1;
        }
        assert(all.take(self.records@.len() as int) =~= all);
        Ok(reply_for(&found, observation.query.mode))
    }

    /// How many records the store holds.
    pub fn records_count(&self) -> (count: usize)
        ensures
            count == self@.len(),
    {
        self.records.len()
    }

    /// Whether the store holds no record.
    pub fn is_empty(&self) -> (empty: Result<bool, Error>)
        ensures
            empty == Ok::<bool, Error>(self@.len() == 0),
    {
        Ok(self.records.len() == 0)
    }

    /// Summaries of the records with `topic` (any topic when `None`) that
    /// the privacy selection lets through.
    pub fn summaries_for_topic(&self, topic: Option<&Topic>, privacy_selection: MagnitudeSelection) -> (summaries: Result<Vec<RecordSummary>, Error>)
        ensures
            summaries matches Ok(shown) && summary_views(shown@) == summaries_of(
                topic_records(
                    match topic {
                        Some(word) => Some(word@),
                        None => None,
                    },
                    privacy_selection,
                    self@,
                ),
            ),
    {
        let query = make_topic_query(topic, privacy_selection);
        let records = self.records_for_query(&query);
        let ghost word = match topic {
            Some(word) => Some(word@),
            None => None,
        };
        assert((|record: StoredRecordView| record_matches(query, record)) =~= (|
            record: StoredRecordView,
        |
            (match word {
                Some(w) => record.entry.topics.contains(w),
                None => true,
            }) && magnitude_selection_matches(privacy_selection, record.entry.privacy)));
        Ok(summarize(&records))
    }

    /// Sets one stored record's certainty.
    pub fn change_certainty(&mut self, change: CertaintyChange) -> (changed: Result<CertaintyChanged, Error>)
        requires
            old(self).wf(),
        ensures
            final(self).wf(),
            final(self).spec_location() == old(self).spec_location(),
            certainty_outcome(*old(self), *final(self), change, changed),
    {
        match self.position_of(change.identifier) {
            None => Err(
                Error::RequestRejected {
                    reason: RequestRejectionReason::RecordNotStored {
                        collection: "records".to_string(),
                        identifier: change.identifier.value,
                    },
                },
            ),
            Some(at) => {
                let ghost before = self@;
                let mut record = self.records[at].clone();
                record.entry.change_certainty(change.certainty);
                self.records.set(at, record);
                assert forall|i: int| 0 <= i < before.len() implies #[trigger] self@[i] == if before[i].id
                    == change.identifier.value {
                    StoredRecordView {
                        entry: EntryView { certainty: change.certainty, ..before[i].entry },
                        ..before[i]
                    }
                } else {
                    before[i]
                } by {
                    if i != at {
                        assert(before[i].id != before[at as int].id);
                    }
                }
                self.note_commit(change.identifier.value);
                assert(forall|i: int| 0 <= i < self@.len() ==> #[trigger] self@[i].id <= self.high_water());
                assert(forall|i: int| 0 <= i < self@.len() ==> topics_valid(#[trigger] self@[i].entry.topics));
                Ok(CertaintyChanged { identifier: change.identifier, certainty: change.certainty })
            },
        }
    }

    /// Rewrites one stored record's user-authored fields, keeping its
    /// identifier and stamped time.
    pub fn change_record(&mut self, change: RecordChange) -> (changed: Result<RecordMutationApplied, Error>)
        requires
            old(self).wf(),
        ensures
            final(self).wf(),
            final(self).spec_location() == old(self).spec_location(),
            record_change_outcome(*old(self), *final(self), change, changed),
    {
        validate_topics(&change.entry.topics)?;
        let identifier = change.record_identifier;
        match self.position_of(identifier) {
            None => Err(
                Error::RequestRejected {
                    reason: RequestRejectionReason::RecordNotStored {
                        collection: "records".to_string(),
                        identifier: identifier.value,
                    },
                },
            ),
            Some(at) => {
                let ghost before = self@;
                let ghost replacement = change.entry@;
                let mut record = self.records[at].clone();
                record.entry.replace_entry(change.entry);
                self.records.set(at, record);
                assert forall|i: int| 0 <= i < before.len() implies #[trigger] self@[i] == if before[i].id
                    == identifier.value {
                    StoredRecordView { entry: replacement, ..before[i] }
                } else {
                    before[i]
                } by {
                    if i != at {
                        assert(before[i].id != before[at as int].id);
                    }
                }
                self.note_commit(identifier.value);
                assert(forall|i: int| 0 <= i < self@.len() ==> #[trigger] self@[i].id <= self.high_water());
                assert forall|i: int| 0 <= i < self@.len() implies topics_valid(
                    #[trigger] self@[i].entry.topics,
                ) by {
                    if i != at {
                        assert(self@[i] == before[i]);
                    }
                }
                Ok(RecordMutationApplied { identifier })
            },
        }
    }

    /// Stores an entry under an identifier it already had (a migration
    /// import). A record already stored under that identifier is replaced.
    pub fn import_migrated_record(&mut self, identifier: RecordIdentifier, entry: StampedEntry) -> (imported: Result<(), Error>)
        requires
            old(self).wf(),
        ensures
            final(self).wf(),
            final(self).spec_location() == old(self).spec_location(),
            match imported {
                Ok(()) => {
                    &&& topics_valid(entry@.entry.topics)
                    &&& final(self)@ == records_below(old(self)@, identifier.value).push(
                        StoredRecordView {
                            id: identifier.value,
                            entry: entry@.entry,
                            moment: entry@.moment,
                        },
                    ) + records_above(old(self)@, identifier.value)
                    &&& final(self).high_water() == max_nat(old(self).high_water(), identifier.value as nat)
                    &&& final(self).commits() == commits_after(old(self).commits(), 1)
                },
                Err(error) => {
                    &&& !topics_valid(entry@.entry.topics)
                    &&& error is RequestRejected
                    &&& final(self)@ == old(self)@
                    &&& final(self).commits() == old(self).commits()
                    &&& final(self).high_water() == old(self).high_water()
                },
            },
    {
        validate_topics(&entry.entry.topics)?;
        let ghost before = self@;
        let ghost below_keep = |record: StoredRecordView| record.id < identifier.value;
        let ghost above_keep = |record: StoredRecordView| record.id > identifier.value;
        let mut below: Vec<StoredRecord> = Vec::new();
        let mut above: Vec<StoredRecord> = Vec::new();
        let mut at: usize = 0;
        while at < self.records.len()
            invariant
                before == self@,
                below_keep == (|record: StoredRecordView| record.id < identifier.value),
                above_keep == (|record: StoredRecordView| record.id > identifier.value),
                at <= self.records@.len(),
                record_views(below@) == records_where(before.take(at as int), below_keep),
                record_views(above@) == records_where(before.take(at as int), above_keep),
            decreases self.records@.len() - at,
        {
            assert(before.take(at + 1).drop_last() =~= before.take(at as int));
            let value = self.records[at].identifier.value;
            if value < identifier.value {
                below.push(self.records[at].clone());
                assert(record_views(below@) =~= records_where(before.take(at as int), below_keep).push(
                    before[at as int],
                ));
            } else if value > identifier.value {
                above.push(self.records[at].clone());
                assert(record_views(above@) =~= records_where(before.take(at as int), above_keep).push(
                    before[at as int],
                ));
            }
            at += 1;
        }
        assert(before.take(self.records@.len() as int) =~= before);
        let record = StoredRecord::new(identifier, entry);
        let ghost view = record@;
        below.push(record);
        below.append(&mut above);
        let ghost low = records_below(before, identifier.value);
        let ghost high = records_above(before, identifier.value);
        assert(record_views(below@) =~= low.push(view) + high);
        self.records = below;
        proof {
            lemma_records_where(before, below_keep);
            lemma_records_where(before, above_keep);
            let merged = self@;
            assert forall|i: int, j: int| 0 <= i < j < merged.len() implies merged[i].id
                < merged[j].id by {
                if j < low.len() {
                    assert(merged[i] == low[i] && merged[j] == low[j]);
                } else if j == low.len() {
                    assert(low.contains(merged[i]));
                } else if i < low.len() {
                    assert(low.contains(merged[i]));
                    assert(high.contains(merged[j]));
                } else if i == low.len() {
                    assert(high.contains(merged[j]));
                } else {
                    assert(merged[i] == high[i - low.len() - 1]);
                    assert(merged[j] == high[j - low.len() - 1]);
                }
            }
        }
        self.note_commit(identifier.value);
        assert forall|i: int| 0 <= i < self@.len() implies #[trigger] self@[i].id <= self.high_water()
            && topics_valid(self@[i].entry.topics) by {
            let merged = self@;
            if i < low.len() {
                assert(low.contains(merged[i]));
                let k = choose|k: int| 0 <= k < before.len() && before[k] == merged[i];
            } else if i > low.len() {
                assert(merged[i] == high[i - low.len() - 1]);
                assert(high.contains(merged[i]));
                let k = choose|k: int| 0 <= k < before.len() && before[k] == merged[i];
            }
        }
        assert(forall|i: int| 0 <= i < self@.len() ==> #[trigger] self@[i].id <= self.high_water());
        assert(forall|i: int| 0 <= i < self@.len() ==> topics_valid(#[trigger] self@[i].entry.topics));
        Ok(())
    }

    /// The candidates a removal-candidate collection would take, as
    /// summaries; the collection must ask for exact-`Zero` certainty and
    /// exact-`Zero` privacy.
    pub fn removal_candidates(&self, collection: &RemovalCandidateCollection) -> (candidates: Result<Vec<RecordSummary>, Error>)
        ensures
            match candidates {
                Ok(summaries) => collection.is_exact_zero_candidate_query_spec()
                    && summary_views(summaries@) == summaries_of(
                    query_result(collection.record_query, self@),
                ),
                Err(error) => !collection.is_exact_zero_candidate_query_spec() && error == (
                Error::RequestRejected {
                    reason: RequestRejectionReason::CollectionQueryNotExactZeroPublic,
                }),
            },
    {
        if !collection.is_exact_zero_candidate_query() {
            return Err(
                Error::RequestRejected {
                    reason: RequestRejectionReason::CollectionQueryNotExactZeroPublic,
                },
            );
        }
        let records = self.records_for_query(&collection.record_query);
        Ok(summarize(&records))
    }

    /// Collects removal candidates: preserves their summaries, then retracts
    /// them. `archive_written` reports whether the archive database (when
    /// the target is one) took the summaries; when it did not, nothing is
    /// retracted and every candidate is reported as skipped.
    pub fn collect_removal_candidates(
        &mut self,
        collection: &RemovalCandidateCollection,
        archive_written: bool,
    ) -> (collected: Result<RemovalCandidatesCollected, Error>)
        requires
            old(self).wf(),
        ensures
            final(self).wf(),
            final(self).spec_location() == old(self).spec_location(),
            collection_outcome(*old(self), *final(self), *collection, archive_written, collected),
    {
        if !collection.is_exact_zero_candidate_query() {
            return Err(
                Error::RequestRejected {
                    reason: RequestRejectionReason::CollectionQueryNotExactZeroPublic,
                },
            );
        }
        let candidates = self.records_for_query(&collection.record_query);
        let ghost candidate_views = record_views(candidates@);
        let ghost ids = record_ids(candidate_views);
        let mut identifiers: Vec<RecordIdentifier> = Vec::new();
        let mut skipped: Vec<SkippedRemovalCandidate> = Vec::new();
        let mut at: usize = 0;
        while at < candidates.len()
            invariant
                candidate_views == record_views(candidates@),
                ids == record_ids(candidate_views),
                at <= candidates@.len(),
                identifier_values(identifiers@) == ids.take(at as int),
                all_skipped(ids.take(at as int), skipped@),
            decreases candidates@.len() - at,
        {
            let identifier = candidates[at].identifier;
            identifiers.push(identifier);
            skipped.push(
                SkippedRemovalCandidate {
                    identifier,
                    reason: RemovalCandidateSkipReason::ArchiveFailed,
                },
            );
            assert(identifier_values(identifiers@) =~= ids.take(at + 1));
            assert(ids.take(at + 1)[at as int] == identifier.value);
            at += 1;
        }
        assert(ids.take(candidates@.len() as int) =~= ids);
        proof {
            lemma_query_result_within(collection.record_query, self@);
            assert forall|i: int| 0 <= i < identifiers@.len() implies #[trigger] identifiers@[i].value
                <= self.high_water() by {
                assert(identifier_values(identifiers@)[i] == ids[i]);
                assert(candidate_views.contains(candidate_views[i]));
                let k = choose|k: int| 0 <= k < self@.len() && self@[k] == candidate_views[i];
            }
        }
        if !archive_written && collection.output_target.writes_archive() {
            return Ok(RemovalCandidatesCollected::new(Vec::new(), Vec::new(), skipped));
        }
        let archived = summarize(&candidates);
        self.retract_identifiers(&identifiers);
        Ok(RemovalCandidatesCollected::new(archived, identifiers, Vec::new()))
    }

    /// Retracts every record whose identifier is listed.
    fn retract_identifiers(&mut self, identifiers: &Vec<RecordIdentifier>)
        requires
            old(self).wf(),
            forall|i: int|
                0 <= i < identifiers@.len() ==> #[trigger] identifiers@[i].value <= old(self).high_water(),
        ensures
            final(self).wf(),
            final(self).spec_location() == old(self).spec_location(),
            final(self)@ == without_identifiers(old(self)@, identifier_values(identifiers@)),
            final(self).high_water() == old(self).high_water(),
            final(self).commits() == commits_after(old(self).commits(), identifiers@.len()),
    {
        let ghost before = self@;
        let ghost ids = identifier_values(identifiers@);
        let ghost keep = |record: StoredRecordView| !ids.contains(record.id);
        let mut kept: Vec<StoredRecord> = Vec::new();
        let mut at: usize = 0;
        while at < self.records.len()
            invariant
                before == self@,
                ids == identifier_values(identifiers@),
                keep == (|record: StoredRecordView| !ids.contains(record.id)),
                at <= self.records@.len(),
                record_views(kept@) == records_where(before.take(at as int), keep),
            decreases self.records@.len() - at,
        {
            assert(before.take(at + 1).drop_last() =~= before.take(at as int));
            let value = self.records[at].identifier.value;
            let mut listed = false;
            let mut probe: usize = 0;
            while probe < identifiers.len()
                invariant
                    ids == identifier_values(identifiers@),
                    probe <= identifiers@.len(),
                    listed == exists|j: int| 0 <= j < probe && #[trigger] ids[j] == value,
                decreases identifiers@.len() - probe,
            {
                if identifiers[probe].value == value {
                    assert(ids[probe as int] == value);
                    listed = true;
                }
                probe += 1;
            }
            assert(listed == ids.contains(value));
            if !listed {
                kept.push(self.records[at].clone());
                assert(record_views(kept@) =~= records_where(before.take(at as int), keep).push(
                    before[at as int],
                ));
            }
            at += 1;
        }
        assert(before.take(self.records@.len() as int) =~= before);
        let ghost high_before = self.high_water();
        let ghost commits_before = self.commits();
        self.records = kept;
        proof {
            lemma_records_where(before, keep);
        }
        let mut at: usize = 0;
        while at < identifiers.len()
            invariant
                self@ == without_identifiers(before, ids),
                ids == identifier_values(identifiers@),
                forall|i: int|
                    0 <= i < identifiers@.len() ==> #[trigger] identifiers@[i].value <= high_before,
                self.high_water() == high_before,
                at <= identifiers@.len(),
                commits_before == old(self).commits(),
                self.commits() == commits_after(commits_before, at as nat),
                self.spec_location() == old(self).spec_location(),
                before.len() > 0 ==> self.logged_identifier() is Some,
                old(self).logged_identifier() is Some ==> self.logged_identifier() is Some,
            decreases identifiers@.len() - at,
        {
            self.note_commit(identifiers[at].value);
            at += 1;
        }
        assert forall|i: int| 0 <= i < self@.len() implies #[trigger] self@[i].id <= self.high_water()
            && topics_valid(self@[i].entry.topics) by {
            assert(self@.contains(self@[i]));
            let k = choose|k: int| 0 <= k < before.len() && before[k] == self@[i];
        }
        assert(forall|i: int| 0 <= i < self@.len() ==> #[trigger] self@[i].id <= self.high_water());
        assert(forall|i: int| 0 <= i < self@.len() ==> topics_valid(#[trigger] self@[i].entry.topics));
    }

    /// The highest record identifier still stored or ever committed.
    pub fn last_record_identifier(&self) -> (last: Option<u64>)
        requires
            self.wf(),
        ensures
            last == self.logged_identifier(),
    {
        self.logged_identifier
    }
}

/// Whether a stored record passes every filter of a query.
pub fn matches_query(query: &RecordQuery, record: &StoredRecord) -> (matched: bool)
    ensures
        matched == record_matches(*query, record@),
{
    let entry = &record.entry.entry;
    query.topic_selection.matches(&entry.topics) && match query.kind {
        Some(kind) => entry.kind == kind,
        None => true,
    } && query.certainty_selection.matches(entry.certainty)
        && query.recorded_time_selection.matches(record.recorded_time())
        && query.privacy_selection.matches(entry.privacy)
}

/// The answer to a record observation: summaries, or records with their
/// capture time.
#[derive(Debug, PartialEq, Eq)]
pub enum ObservedRecords {
    RecordsObserved(Vec<RecordSummary>),
    RecordProvenancesObserved(Vec<RecordProvenance>),
}

/// Whether `reply` shows exactly `records` in the shape `mode` asks for.
pub open spec fn shows_records(
    reply: ObservedRecords,
    mode: ObservationMode,
    records: Seq<StoredRecordView>,
) -> bool {
    match mode {
        ObservationMode::SummaryOnly => reply matches ObservedRecords::RecordsObserved(summaries)
            && summary_views(summaries@) == summaries_of(records),
        ObservationMode::WithProvenance => reply matches ObservedRecords::RecordProvenancesObserved(
            provenances,
        ) && provenance_views(provenances@) == records,
    }
}

/// Summaries of the given records.
pub fn summarize(records: &Vec<StoredRecord>) -> (summaries: Vec<RecordSummary>)
    ensures
        summary_views(summaries@) == summaries_of(record_views(records@)),
{
    let mut summaries: Vec<RecordSummary> = Vec::new();
    let mut at: usize = 0;
    while at < records.len()
        invariant
            at <= records@.len(),
            summaries@.len() == at,
            summary_views(summaries@) == summaries_of(record_views(records@).take(at as int)),
        decreases records@.len() - at,
    {
        let ghost before = summaries@;
        summaries.push(records[at].summary());
        assert forall|i: int| 0 <= i < at + 1 implies #[trigger] summary_views(summaries@)[i]
            == summaries_of(record_views(records@).take(at + 1))[i] by {
            if i < at {
                assert(summaries@[i] == before[i]);
                assert(summary_views(before)[i] == summaries_of(record_views(records@).take(at as int))[i]);
            }
        }
        assert(summary_views(summaries@) =~= summaries_of(record_views(records@).take(at + 1)));
        at += 1;
    }
    assert(record_views(records@).take(records@.len() as int) =~= record_views(records@));
    summaries
}

/// Provenance views of the given records.
fn provenances(records: &Vec<StoredRecord>) -> (provenances: Vec<RecordProvenance>)
    ensures
        provenance_views(provenances@) == record_views(records@),
{
    let mut shown: Vec<RecordProvenance> = Vec::new();
    let mut at: usize = 0;
    while at < records.len()
        invariant
            at <= records@.len(),
            shown@.len() == at,
            provenance_views(shown@) == record_views(records@).take(at as int),
        decreases records@.len() - at,
    {
        let ghost before = shown@;
        shown.push(records[at].provenance());
        assert forall|i: int| 0 <= i < at + 1 implies #[trigger] provenance_views(shown@)[i]
            == record_views(records@).take(at + 1)[i] by {
            if i < at {
                assert(shown@[i] == before[i]);
                assert(provenance_views(before)[i] == record_views(records@).take(at as int)[i]);
            }
        }
        assert(provenance_views(shown@) =~= record_views(records@).take(at + 1));
        at += 1;
    }
    assert(record_views(records@).take(records@.len() as int) =~= record_views(records@));
    shown
}

/// Shapes records as the observation mode asks.
pub fn reply_for(records: &Vec<StoredRecord>, mode: ObservationMode) -> (reply: ObservedRecords)
    ensures
        shows_records(reply, mode, record_views(records@)),
{
    match mode {
        ObservationMode::SummaryOnly => ObservedRecords::RecordsObserved(summarize(records)),
        ObservationMode::WithProvenance => ObservedRecords::RecordProvenancesObserved(
            provenances(records),
        ),
    }
}

/// A record observation: one query.
#[derive(Debug, PartialEq, Eq)]
pub struct RecordObservation {
    pub query: RecordQuery,
}

/// A lookup of one exact record identifier.
#[derive(Debug, Clone, Copy, PartialEq, Eq, Structural)]
pub struct RecordIdentifierQuery {
    pub identifier: RecordIdentifier,
    pub mode: ObservationMode,
}

impl RecordIdentifierQuery {
    pub fn contains(&self, identifier: RecordIdentifier) -> (found: bool)
        ensures
            found == (identifier.value == self.identifier.value),
    {
        identifier.value == self.identifier.value
    }
}

/// An identifier lookup together with the privacy it may see.
#[derive(Debug, Clone, Copy, PartialEq, Eq, Structural)]
pub struct RecordIdentifierObservation {
    pub query: RecordIdentifierQuery,
    pub privacy_selection: MagnitudeSelection,
}

impl RecordIdentifierObservation {
    /// A public lookup: sees exact-`Zero` privacy only.
    pub fn public(query: RecordIdentifierQuery) -> (observation: Self)
        ensures
            observation.query == query,
            observation.privacy_selection == MagnitudeSelection::Exact(Magnitude::Zero),
    {
        RecordIdentifierObservation {
            query,
            privacy_selection: MagnitudeSelection::default_observation_privacy(),
        }
    }

    /// A lookup with the privacy selection its request names.
    pub fn private(query: PrivacyScopedRecordIdentifierQuery) -> (observation: Self)
        ensures
            observation.query == query.record_identifier_query,
            observation.privacy_selection == query.privacy_selection,
    {
        RecordIdentifierObservation {
            query: query.record_identifier_query,
            privacy_selection: query.privacy_selection,
        }
    }
}

/// The records an identifier lookup shows.
pub open spec fn identifier_result(
    observation: RecordIdentifierObservation,
    records: Seq<StoredRecordView>,
) -> Seq<StoredRecordView> {
    records_where(
        records,
        |record: StoredRecordView|
            record.id == observation.query.identifier.value && magnitude_selection_matches(
                observation.privacy_selection,
                record.entry.privacy,
            ),
    )
}

/// An identifier lookup shows only records stored under the looked-up
/// identifier, shows the one stored there whenever its privacy is let
/// through, and so shows at most one record of a store whose identifiers
/// rise.
pub proof fn law_identifier_lookup_shows_that_record_alone(
    observation: RecordIdentifierObservation,
    records: Seq<StoredRecordView>,
)
    ensures
        forall|r: StoredRecordView|
            #[trigger] identifier_result(observation, records).contains(r) ==> records.contains(r)
                && r.id == observation.query.identifier.value,
        forall|r: StoredRecordView|
            records.contains(r) && r.id == observation.query.identifier.value
                && magnitude_selection_matches(observation.privacy_selection, r.entry.privacy)
                ==> #[trigger] identifier_result(observation, records).contains(r),
        identifiers_increase(records) ==> identifier_result(observation, records).len() <= 1,
{
    let keep = |record: StoredRecordView|
        record.id == observation.query.identifier.value && magnitude_selection_matches(
            observation.privacy_selection,
            record.entry.privacy,
        );
    lemma_records_where(records, keep);
    let shown = identifier_result(observation, records);
    assert(shown == records_where(records, keep));
    if identifiers_increase(records) && shown.len() > 1 {
        assert(shown.contains(shown[0]));
        assert(shown.contains(shown[1]));
        assert(shown[0].id < shown[1].id);
    }
}

/// Removing `identifier` keeps every record stored under another
/// identifier and drops every record stored under it; from a store whose
/// identifiers rise it drops at most one record.
pub proof fn law_removal_keeps_every_other_record(records: Seq<StoredRecordView>, identifier: u64)
    ensures
        forall|r: StoredRecordView|
            records.contains(r) && r.id != identifier ==> #[trigger] without_identifier(
                records,
                identifier,
            ).contains(r),
        forall|r: StoredRecordView|
            #[trigger] without_identifier(records, identifier).contains(r) ==> records.contains(r)
                && r.id != identifier,
        identifiers_increase(records) ==> without_identifier(records, identifier).len() + 1
            >= records.len(),
    decreases records.len(),
{
    let keep = |record: StoredRecordView| record.id != identifier;
    lemma_records_where(records, keep);
    if identifiers_increase(records) && records.len() > 0 {
        let earlier = records.drop_last();
        assert(identifiers_increase(earlier));
        law_removal_keeps_every_other_record(earlier, identifier);
        if records.last().id == identifier {
            assert forall|i: int| 0 <= i < earlier.len() implies keep(#[trigger] earlier[i]) by {
                assert(records[i].id < records[records.len() - 1].id);
            }
            lemma_records_where_keeps_all(earlier, keep);
        }
    }
}

/// Keeping every record keeps the list as it is.
proof fn lemma_records_where_keeps_all(
    records: Seq<StoredRecordView>,
    keep: spec_fn(StoredRecordView) -> bool,
)
    requires
        forall|i: int| 0 <= i < records.len() ==> keep(#[trigger] records[i]),
    ensures
        records_where(records, keep) == records,
    decreases records.len(),
{
    if records.len() > 0 {
        let earlier = records.drop_last();
        assert forall|i: int| 0 <= i < earlier.len() implies keep(#[trigger] earlier[i]) by {
            assert(earlier[i] == records[i]);
        }
        lemma_records_where_keeps_all(earlier, keep);
        assert(keep(records[records.len() - 1]));
        assert(earlier.push(records.last()) =~= records);
    }
}

/// The records `summaries_for_topic` shows: those holding the topic (any
/// record when there is none) that the privacy selection lets through.
pub open spec fn topic_records(
    topic: Option<Seq<char>>,
    privacy_selection: MagnitudeSelection,
    records: Seq<StoredRecordView>,
) -> Seq<StoredRecordView> {
    records_where(
        records,
        |record: StoredRecordView|
            (match topic {
                Some(word) => record.entry.topics.contains(word),
                None => true,
            }) && magnitude_selection_matches(privacy_selection, record.entry.privacy),
    )
}

/// The query that selects `topic_records`.
fn make_topic_query(topic: Option<&Topic>, privacy_selection: MagnitudeSelection) -> (query: RecordQuery)
    ensures
        forall|record: StoredRecordView|
            #[trigger] record_matches(query, record) == ((match topic {
                Some(word) => record.entry.topics.contains(word@),
                None => true,
            }) && magnitude_selection_matches(privacy_selection, record.entry.privacy)),
        recency_limit(query.recorded_time_selection) is None,
        query.mode == ObservationMode::SummaryOnly,
{
    let topic_selection = match topic {
        Some(wanted) => {
            let mut listed = Vec::new();
            listed.push(wanted.clone());
            assert(listed@.len() == 1 && listed@[0] == *wanted);
            proof {
                crate::record::lemma_single_partial(listed, *wanted);
            }
            TopicSelection::Partial(listed)
        },
        None => TopicSelection::Any,
    };
    RecordQuery {
        topic_selection,
        kind: None,
        certainty_selection: MagnitudeSelection::Any,
        recorded_time_selection: crate::record::RecordedTimeSelection::Any,
        privacy_selection,
        mode: ObservationMode::SummaryOnly,
    }
}

/// Which standard stream printed output goes to.
#[derive(Debug, Clone, Copy, PartialEq, Eq, Structural)]
pub enum OutputStream {
    StandardOutput,
    StandardError,
}

/// Which archive database collected candidates are written to.
#[derive(Debug, PartialEq, Eq)]
pub enum ArchiveDatabaseTarget {
    Default,
    Path(String),
}

/// Where collected removal candidates go.
#[derive(Debug, PartialEq, Eq)]
pub enum OutputTarget {
    ArchiveDatabase(ArchiveDatabaseTarget),
    Print(OutputStream),
}

impl OutputTarget {
    pub fn default_archive_database() -> (target: Self)
        ensures
            target == OutputTarget::ArchiveDatabase(ArchiveDatabaseTarget::Default),
    {
        OutputTarget::ArchiveDatabase(ArchiveDatabaseTarget::Default)
    }

    pub fn archive_database(path: String) -> (target: Self)
        ensures
            target == OutputTarget::ArchiveDatabase(ArchiveDatabaseTarget::Path(path)),
    {
        OutputTarget::ArchiveDatabase(ArchiveDatabaseTarget::Path(path))
    }

    /// Whether the target writes an archive database (printing does not).
    pub fn writes_archive(&self) -> (writes: bool)
        ensures
            writes == (*self is ArchiveDatabase),
    {
        match self {
            OutputTarget::ArchiveDatabase(_) => true,
            OutputTarget::Print(_) => false,
        }
    }

    /// The stream the command line writes the reply to.
    pub fn stream(&self) -> (stream: OutputStream)
        ensures
            stream == match *self {
                OutputTarget::Print(printed) => printed,
                OutputTarget::ArchiveDatabase(_) => OutputStream::StandardOutput,
            },
    {
        match self {
            OutputTarget::Print(printed) => *printed,
            OutputTarget::ArchiveDatabase(_) => OutputStream::StandardOutput,
        }
    }
}

/// A bulk removal-candidate collection: the candidate query and where the
/// candidates' summaries are preserved before they are retracted.
#[derive(Debug, PartialEq, Eq)]
pub struct RemovalCandidateCollection {
    pub record_query: RecordQuery,
    pub output_target: OutputTarget,
}

impl RemovalCandidateCollection {
    pub fn new(record_query: RecordQuery, output_target: OutputTarget) -> (collection: Self)
        ensures
            collection == (RemovalCandidateCollection { record_query, output_target }),
    {
        RemovalCandidateCollection { record_query, output_target }
    }

    /// Collects the exact-`Zero` candidates into the default archive database.
    pub fn default_archive_database() -> (collection: Self)
        ensures
            collection.record_query.certainty_selection == MagnitudeSelection::Exact(
                Magnitude::Zero,
            ),
            collection.record_query.privacy_selection == MagnitudeSelection::Exact(Magnitude::Zero),
            collection.record_query.topic_selection is Any,
            collection.record_query.kind is None,
            collection.record_query.recorded_time_selection
                == crate::record::RecordedTimeSelection::Any,
            collection.record_query.mode == ObservationMode::SummaryOnly,
            collection.output_target == OutputTarget::ArchiveDatabase(ArchiveDatabaseTarget::Default),
    {
        RemovalCandidateCollection {
            record_query: RecordQuery::removal_candidates(ObservationMode::SummaryOnly),
            output_target: OutputTarget::default_archive_database(),
        }
    }

    /// Collects the exact-`Zero` candidates and prints them.
    pub fn print_standard_output() -> (collection: Self)
        ensures
            collection.record_query.certainty_selection == MagnitudeSelection::Exact(
                Magnitude::Zero,
            ),
            collection.record_query.privacy_selection == MagnitudeSelection::Exact(Magnitude::Zero),
            collection.record_query.topic_selection is Any,
            collection.record_query.kind is None,
            collection.record_query.recorded_time_selection
                == crate::record::RecordedTimeSelection::Any,
            collection.record_query.mode == ObservationMode::SummaryOnly,
            collection.output_target == OutputTarget::Print(OutputStream::StandardOutput),
    {
        RemovalCandidateCollection {
            record_query: RecordQuery::removal_candidates(ObservationMode::SummaryOnly),
            output_target: OutputTarget::Print(OutputStream::StandardOutput),
        }
    }

    /// The collection asks for exact-`Zero` certainty and exact-`Zero`
    /// privacy.
    pub open spec fn is_exact_zero_candidate_query_spec(&self) -> bool {
        self.record_query.certainty_selection == MagnitudeSelection::Exact(Magnitude::Zero)
            && self.record_query.privacy_selection == MagnitudeSelection::Exact(Magnitude::Zero)
    }

    pub fn is_exact_zero_candidate_query(&self) -> (exact: bool)
        ensures
            exact == self.is_exact_zero_candidate_query_spec(),
    {
        self.record_query.is_exact_zero_candidate_query()
    }
}

/// Why a candidate was left in place.
#[derive(Debug, Clone, Copy, PartialEq, Eq, Structural)]
pub enum RemovalCandidateSkipReason {
    ArchiveFailed,
}

/// A candidate left in place, and why.
#[derive(Debug, Clone, Copy, PartialEq, Eq, Structural)]
pub struct SkippedRemovalCandidate {
    pub identifier: RecordIdentifier,
    pub reason: RemovalCandidateSkipReason,
}

/// The receipt for a removal-candidate collection.
#[derive(Debug, PartialEq, Eq)]
pub struct RemovalCandidatesCollected {
    archived_records: Vec<RecordSummary>,
    removed_identifiers: Vec<RecordIdentifier>,
    skipped_candidates: Vec<SkippedRemovalCandidate>,
}

pub open spec fn identifier_values(identifiers: Seq<RecordIdentifier>) -> Seq<u64> {
    identifiers.map_values(|identifier: RecordIdentifier| identifier.value)
}

pub open spec fn record_ids(records: Seq<StoredRecordView>) -> Seq<u64> {
    records.map_values(|record: StoredRecordView| record.id)
}

impl RemovalCandidatesCollected {
    pub closed spec fn spec_archived(&self) -> Seq<(u64, EntryView)> {
        summary_views(self.archived_records@)
    }

    pub closed spec fn spec_removed(&self) -> Seq<u64> {
        identifier_values(self.removed_identifiers@)
    }

    pub closed spec fn spec_skipped(&self) -> Seq<SkippedRemovalCandidate> {
        self.skipped_candidates@
    }

    pub fn new(
        archived_records: Vec<RecordSummary>,
        removed_identifiers: Vec<RecordIdentifier>,
        skipped_candidates: Vec<SkippedRemovalCandidate>,
    ) -> (collected: Self)
        ensures
            collected.spec_archived() == summary_views(archived_records@),
            collected.spec_removed() == identifier_values(removed_identifiers@),
            collected.spec_skipped() == skipped_candidates@,
    {
        RemovalCandidatesCollected { archived_records, removed_identifiers, skipped_candidates }
    }

    pub fn archived_records(&self) -> (records: &[RecordSummary])
        ensures
            summary_views(records@) == self.spec_archived(),
    {
        self.archived_records.as_slice()
    }

    pub fn removed_identifiers(&self) -> (identifiers: &[RecordIdentifier])
        ensures
            identifier_values(identifiers@) == self.spec_removed(),
    {
        self.removed_identifiers.as_slice()
    }

    pub fn skipped_candidates(&self) -> (skipped: &[SkippedRemovalCandidate])
        ensures
            skipped@ == self.spec_skipped(),
    {
        self.skipped_candidates.as_slice()
    }
}

/// Every candidate skipped because its archive could not be written.
pub open spec fn all_skipped(identifiers: Seq<u64>, skipped: Seq<SkippedRemovalCandidate>) -> bool {
    &&& skipped.len() == identifiers.len()
    &&& forall|i: int|
        0 <= i < skipped.len() ==> #[trigger] skipped[i] == (SkippedRemovalCandidate {
            identifier: RecordIdentifier { value: identifiers[i] },
            reason: RemovalCandidateSkipReason::ArchiveFailed,
        })
}

/// The records whose identifier is not among `identifiers`.
pub open spec fn without_identifiers(records: Seq<StoredRecordView>, identifiers: Seq<u64>) -> Seq<
    StoredRecordView,
> {
    records_where(records, |record: StoredRecordView| !identifiers.contains(record.id))
}

/// The records whose identifier is below `identifier`.
pub open spec fn records_below(records: Seq<StoredRecordView>, identifier: u64) -> Seq<StoredRecordView> {
    records_where(records, |record: StoredRecordView| record.id < identifier)
}

/// The records whose identifier is above `identifier`.
pub open spec fn records_above(records: Seq<StoredRecordView>, identifier: u64) -> Seq<StoredRecordView> {
    records_where(records, |record: StoredRecordView| record.id > identifier)
}

/// Filtering keeps exactly the records that satisfy the predicate, in
/// order.
pub proof fn lemma_records_where(
    records: Seq<StoredRecordView>,
    keep: spec_fn(StoredRecordView) -> bool,
)
    ensures
        forall|r: StoredRecordView|
            #[trigger] records_where(records, keep).contains(r) ==> records.contains(r) && keep(r),
        forall|r: StoredRecordView|
            records.contains(r) && keep(r) ==> #[trigger] records_where(records, keep).contains(r),
        identifiers_increase(records) ==> identifiers_increase(records_where(records, keep)),
        records_where(records, keep).len() <= records.len(),
    decreases records.len(),
{
    if records.len() > 0 {
        let earlier = records.drop_last();
        let last = records.last();
        let prior = records_where(earlier, keep);
        let result = records_where(records, keep);
        lemma_records_where(earlier, keep);
        assert forall|r: StoredRecordView| #[trigger] result.contains(r) implies records.contains(r)
            && keep(r) by {
            if prior.contains(r) {
                let k = choose|k: int| 0 <= k < earlier.len() && earlier[k] == r;
                assert(records[k] == r);
            } else {
                assert(r == last);
                assert(records[records.len() - 1] == r);
            }
        }
        assert forall|r: StoredRecordView| records.contains(r) && keep(r) implies #[trigger] result.contains(r) by {
            let k = choose|k: int| 0 <= k < records.len() && records[k] == r;
            if k < records.len() - 1 {
                assert(earlier[k] == r);
                assert(prior.contains(r));
                let m = choose|m: int| 0 <= m < prior.len() && prior[m] == r;
                assert(result[m] == r);
            } else {
                assert(result[result.len() - 1] == r);
            }
        }
        if identifiers_increase(records) {
            assert(identifiers_increase(earlier));
            if keep(last) {
                assert forall|i: int, j: int| 0 <= i < j < result.len() implies result[i].id
                    < result[j].id by {
                    if j == result.len() - 1 {
                        assert(prior.contains(result[i]));
                        assert(earlier.contains(result[i]));
                        let k = choose|k: int| 0 <= k < earlier.len() && earlier[k] == result[i];
                        assert(records[k] == result[i]);
                    } else {
                        assert(result[i] == prior[i]);
                        assert(result[j] == prior[j]);
                    }
                }
            }
        }
    }
}

proof fn lemma_insert_newest_within(record: StoredRecordView, records: Seq<StoredRecordView>)
    ensures
        forall|r: StoredRecordView|
            #[trigger] insert_newest(record, records).contains(r) ==> r == record || records.contains(r),
        insert_newest(record, records).len() == records.len() + 1,
    decreases records.len(),
{
    if records.len() > 0 && recency_rank(record) <= recency_rank(records[0]) {
        let rest = records.drop_first();
        lemma_insert_newest_within(record, rest);
        let result = insert_newest(record, records);
        assert forall|r: StoredRecordView| #[trigger] result.contains(r) implies r == record
            || records.contains(r) by {
            let k = choose|k: int| 0 <= k < result.len() && result[k] == r;
            if k == 0 {
                assert(records[0] == r);
            } else {
                assert(insert_newest(record, rest)[k - 1] == r);
                assert(insert_newest(record, rest).contains(r));
                if rest.contains(r) {
                    let m = choose|m: int| 0 <= m < rest.len() && rest[m] == r;
                    assert(records[m + 1] == r);
                }
            }
        }
    } else if records.len() > 0 {
        let result = insert_newest(record, records);
        assert forall|r: StoredRecordView| #[trigger] result.contains(r) implies r == record
            || records.contains(r) by {
            let k = choose|k: int| 0 <= k < result.len() && result[k] == r;
            if k > 0 {
                assert(records[k - 1] == r);
            }
        }
    } else {
        assert forall|r: StoredRecordView| #[trigger] insert_newest(record, records).contains(r) implies r
            == record by {
            let k = choose|k: int| 0 <= k < 1 && seq![record][k] == r;
        }
    }
}

proof fn lemma_newest_first_within(records: Seq<StoredRecordView>)
    ensures
        forall|r: StoredRecordView| #[trigger] newest_first(records).contains(r) ==> records.contains(r),
        newest_first(records).len() == records.len(),
    decreases records.len(),
{
    if records.len() > 0 {
        let earlier = records.drop_last();
        lemma_newest_first_within(earlier);
        lemma_insert_newest_within(records.last(), newest_first(earlier));
        assert forall|r: StoredRecordView| #[trigger] newest_first(records).contains(r) implies records.contains(
            r,
        ) by {
            if r == records.last() {
                assert(records[records.len() - 1] == r);
            } else {
                assert(newest_first(earlier).contains(r));
                let k = choose|k: int| 0 <= k < earlier.len() && earlier[k] == r;
                assert(records[k] == r);
            }
        }
    }
}

/// Every record a query answers is a stored record.
pub proof fn lemma_query_result_within(query: RecordQuery, records: Seq<StoredRecordView>)
    ensures
        forall|r: StoredRecordView| #[trigger] query_result(query, records).contains(r) ==> records.contains(r),
{
    let matching = matching_records(query, records);
    lemma_records_where(records, |record: StoredRecordView| record_matches(query, record));
    lemma_newest_first_within(matching);
    assert forall|r: StoredRecordView| #[trigger] query_result(query, records).contains(r) implies records.contains(
        r,
    ) by {
        let result = query_result(query, records);
        match recency_limit(query.recorded_time_selection) {
            Some(limit) => {
                let ordered = newest_first(matching);
                if limit < ordered.len() {
                    let k = choose|k: int| 0 <= k < result.len() && result[k] == r;
                    assert(ordered[k] == r);
                    assert(ordered.contains(r));
                }
                assert(matching.contains(r));
            },
            None => {
                assert(matching.contains(r));
            },
        }
    }
}


/// An entry a store accepts is found by every observation it matches:
/// without a recency depth the answer gains exactly that record, at its
/// end; with a depth, a record newer than every other match comes first.
/// An entry that does not match an observation leaves its answer as it
/// was.
pub proof fn law_accepted_record_is_observed(
    query: RecordQuery,
    before: Seq<StoredRecordView>,
    record: StoredRecordView,
)
    ensures
        record_matches(query, record) && recency_limit(query.recorded_time_selection) is None
            ==> query_result(query, before.push(record)) == query_result(query, before).push(
            record,
        ),
        record_matches(query, record) && recency_limit(query.recorded_time_selection) is Some
            && (forall|i: int|
            0 <= i < matching_records(query, before).len() ==> recency_rank(record)
                > recency_rank(#[trigger] matching_records(query, before)[i])) ==> query_result(
            query,
            before.push(record),
        )[0] == record,
        !record_matches(query, record) ==> query_result(query, before.push(record))
            == query_result(query, before),
{
    let keep = |candidate: StoredRecordView| record_matches(query, candidate);
    let after = before.push(record);
    assert(after.drop_last() =~= before);
    let matching = matching_records(query, before);
    if record_matches(query, record) {
        assert(matching_records(query, after) == matching.push(record));
        match recency_limit(query.recorded_time_selection) {
            Some(limit) => {
                let ordered = newest_first(matching);
                lemma_newest_first_within(matching);
                assert(matching.push(record).drop_last() =~= matching);
                if (forall|i: int|
                    0 <= i < matching.len() ==> recency_rank(record) > recency_rank(
                        #[trigger] matching[i],
                    )) {
                    if ordered.len() > 0 {
                        assert(ordered.contains(ordered[0]));
                        let k = choose|k: int| 0 <= k < matching.len() && matching[k] == ordered[0];
                        assert(recency_rank(record) > recency_rank(matching[k]));
                    }
                    assert(newest_first(matching.push(record))[0] == record);
                }
            },
            None => {},
        }
    } else {
        assert(matching_records(query, after) == matching);
    }
}

/// The identifier a store mints next is above every identifier it holds
/// and above every identifier it ever used: a removed identifier is never
/// minted again.
pub proof fn law_minted_identifier_is_fresh(store: SpiritStore)
    requires
        store.wf(),
    ensures
        forall|i: int| 0 <= i < store@.len() ==> (#[trigger] store@[i]).id < store.next_identifier(),
        store.high_water() < store.next_identifier(),
{
}

} // verus!
