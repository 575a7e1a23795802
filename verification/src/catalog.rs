//! The topic catalog: every topic of the records an observation may see,
//! with the number of records that carry it, ordered by the topic's UTF-8
//! bytes.

use vstd::prelude::*;
use vstd::utf8::{decode_utf8, encode_utf8};

use crate::error::Error;
use crate::record::{
    Magnitude, MagnitudeSelection, ObservationMode, RecordQuery, RecordedTimeSelection, Topic,
    TopicSelection, magnitude_selection_matches,
};
use crate::store::{
    SpiritStore, StoredRecord, StoredRecordView, record_matches, record_views, records_where,
};

verus! {

broadcast use vstd::utf8::encode_utf8_decode_utf8;

/// Whether the bytes `a` come before the bytes `b` in lexicographic order.
pub open spec fn bytes_before(a: Seq<u8>, b: Seq<u8>) -> bool
    decreases a.len(),
{
    if a.len() == 0 {
        b.len() > 0
    } else if b.len() == 0 {
        false
    } else if a[0] < b[0] {
        true
    } else if a[0] > b[0] {
        false
    } else {
        bytes_before(a.drop_first(), b.drop_first())
    }
}

/// Lexicographic order is a strict total order.
pub proof fn lemma_bytes_order(a: Seq<u8>, b: Seq<u8>, c: Seq<u8>)
    ensures
        !bytes_before(a, a),
        bytes_before(a, b) ==> !bytes_before(b, a),
        a != b ==> bytes_before(a, b) || bytes_before(b, a),
        bytes_before(a, b) && bytes_before(b, c) ==> bytes_before(a, c),
    decreases a.len(),
{
    if a.len() > 0 && b.len() > 0 && c.len() > 0 {
        lemma_bytes_order(a.drop_first(), b.drop_first(), c.drop_first());
    } else if a.len() > 0 && b.len() > 0 {
        lemma_bytes_order(a.drop_first(), b.drop_first(), b.drop_first());
    } else if a.len() > 0 {
        lemma_bytes_order(a.drop_first(), a.drop_first(), a.drop_first());
    }
    if a.len() > 0 && b.len() > 0 && a[0] == b[0] && a != b {
        assert(a.drop_first() != b.drop_first()) by {
            if a.drop_first() == b.drop_first() {
                assert(a =~= seq![a[0]] + a.drop_first());
                assert(b =~= seq![b[0]] + b.drop_first());
            }
        }
    }
    if a.len() == 0 && b.len() == 0 {
        assert(a =~= b);
    }
}

/// How often `word` occurs in `words`.
pub open spec fn count_in(words: Seq<Seq<char>>, word: Seq<char>) -> nat
    decreases words.len(),
{
    if words.len() == 0 {
        0
    } else {
        count_in(words.drop_last(), word) + if words.last() == word {
            1nat
        } else {
            0nat
        }
    }
}

/// How often `word` occurs among the topics of `records`.
pub open spec fn occurrences(records: Seq<StoredRecordView>, word: Seq<char>) -> nat
    decreases records.len(),
{
    if records.len() == 0 {
        0
    } else {
        occurrences(records.drop_last(), word) + count_in(records.last().entry.topics, word)
    }
}

/// How many topics `records` carry in all.
pub open spec fn topic_total(records: Seq<StoredRecordView>) -> nat
    decreases records.len(),
{
    if records.len() == 0 {
        0
    } else {
        topic_total(records.drop_last()) + records.last().entry.topics.len()
    }
}

proof fn lemma_count_in_bound(words: Seq<Seq<char>>, word: Seq<char>)
    ensures
        count_in(words, word) <= words.len(),
    decreases words.len(),
{
    if words.len() > 0 {
        lemma_count_in_bound(words.drop_last(), word);
    }
}

proof fn lemma_occurrences_bound(records: Seq<StoredRecordView>, word: Seq<char>)
    ensures
        occurrences(records, word) <= topic_total(records),
    decreases records.len(),
{
    if records.len() > 0 {
        lemma_occurrences_bound(records.drop_last(), word);
        lemma_count_in_bound(records.last().entry.topics, word);
    }
}

proof fn lemma_topic_total_prefix(records: Seq<StoredRecordView>, i: int)
    requires
        0 <= i <= records.len(),
    ensures
        topic_total(records.take(i)) <= topic_total(records),
    decreases records.len() - i,
{
    if i < records.len() {
        lemma_topic_total_prefix(records, i + 1);
        assert(records.take(i + 1).drop_last() =~= records.take(i));
    } else {
        assert(records.take(i) =~= records);
    }
}

/// One catalog line: a topic and how many times records carry it.
#[derive(Debug, PartialEq, Eq)]
pub struct TopicCount {
    pub topic: Topic,
    pub entries: u64,
}

pub open spec fn count_views(counts: Seq<TopicCount>) -> Seq<(Seq<char>, u64)> {
    counts.map_values(|count: TopicCount| (count.topic@, count.entries))
}

/// The catalog of `records`: topics in byte order, each once, each with
/// its number of occurrences, and every occurring topic listed.
pub open spec fn is_catalog(counts: Seq<(Seq<char>, u64)>, records: Seq<StoredRecordView>) -> bool {
    &&& forall|i: int, j: int|
        0 <= i < j < counts.len() ==> bytes_before(
            encode_utf8(#[trigger] counts[i].0),
            encode_utf8(#[trigger] counts[j].0),
        )
    &&& forall|i: int|
        0 <= i < counts.len() ==> (#[trigger] counts[i]).1 == occurrences(records, counts[i].0)
            && counts[i].1 > 0
    &&& forall|word: Seq<char>|
        #[trigger] occurrences(records, word) > 0 ==> exists|i: int|
            0 <= i < counts.len() && #[trigger] counts[i].0 == word
}

/// How often `word` has been counted after `done` records and `step`
/// topics of the next one.
pub open spec fn partial_count(
    records: Seq<StoredRecordView>,
    done: int,
    step: int,
    word: Seq<char>,
) -> nat {
    occurrences(records.take(done), word) + if done < records.len() {
        count_in(records[done].entry.topics.take(step), word)
    } else {
        0
    }
}

/// The state of the catalog after counting part of the records.
pub open spec fn catalog_so_far(
    counts: Seq<(Seq<char>, u64)>,
    records: Seq<StoredRecordView>,
    done: int,
    step: int,
) -> bool {
    &&& forall|i: int, j: int|
        0 <= i < j < counts.len() ==> bytes_before(
            encode_utf8(#[trigger] counts[i].0),
            encode_utf8(#[trigger] counts[j].0),
        )
    &&& forall|i: int|
        0 <= i < counts.len() ==> (#[trigger] counts[i]).1 == partial_count(
            records,
            done,
            step,
            counts[i].0,
        ) && counts[i].1 > 0
    &&& forall|word: Seq<char>|
        #[trigger] partial_count(records, done, step, word) > 0 ==> exists|i: int|
            0 <= i < counts.len() && #[trigger] counts[i].0 == word
}

/// Compares two byte strings lexicographically.
fn before(a: &[u8], b: &[u8]) -> (earlier: bool)
    ensures
        earlier == bytes_before(a@, b@),
{
    let mut at: usize = 0;
    proof {
        assert(a@.skip(0) =~= a@);
        assert(b@.skip(0) =~= b@);
    }
    while at < a.len() && at < b.len()
        invariant
            at <= a@.len(),
            at <= b@.len(),
            bytes_before(a@, b@) == bytes_before(a@.skip(at as int), b@.skip(at as int)),
        decreases a@.len() - at,
    {
        if a[at] < b[at] {
            return true;
        }
        if a[at] > b[at] {
            return false;
        }
        proof {
            assert(a@.skip(at as int).drop_first() =~= a@.skip(at + 1));
            assert(b@.skip(at as int).drop_first() =~= b@.skip(at + 1));
        }
        at = at + 1;
    }
    at < b.len()
}

/// Where `key` stands among `counts`: every count before the position is
/// before the key; the count at the position, if any, is the key itself
/// (`found`) or after it.
fn position_for(counts: &Vec<TopicCount>, key: &[u8]) -> (place: (usize, bool))
    requires
        forall|i: int, j: int|
            0 <= i < j < counts@.len() ==> bytes_before(
                encode_utf8(#[trigger] counts@[i].topic@),
                encode_utf8(#[trigger] counts@[j].topic@),
            ),
    ensures
        place.0 <= counts@.len(),
        forall|q: int| 0 <= q < place.0 ==> bytes_before(encode_utf8(#[trigger] counts@[q].topic@), key@),
        place.1 ==> place.0 < counts@.len() && encode_utf8(counts@[place.0 as int].topic@) == key@,
        !place.1 ==> place.0 == counts@.len() || bytes_before(
            key@,
            encode_utf8(counts@[place.0 as int].topic@),
        ),
{
    let mut at: usize = 0;
    while at < counts.len()
        invariant
            at <= counts@.len(),
            forall|q: int| 0 <= q < at ==> bytes_before(encode_utf8(#[trigger] counts@[q].topic@), key@),
        decreases counts@.len() - at,
    {
        let stored = counts[at].topic.as_str().as_bytes();
        if before(key, stored) {
            return (at, false);
        }
        if !before(stored, key) {
            proof {
                lemma_bytes_order(stored@, key@, key@);
            }
            return (at, true);
        }
        at = at + 1;
    }
    (at, false)
}

/// The catalog of `records`.
pub fn topic_counts(records: &Vec<StoredRecord>) -> (counts: Vec<TopicCount>)
    requires
        topic_total(record_views(records@)) <= u64::MAX,
    ensures
        is_catalog(count_views(counts@), record_views(records@)),
{
    let ghost all = record_views(records@);
    let mut counts: Vec<TopicCount> = Vec::new();
    let mut done: usize = 0;
    while done < records.len()
        invariant
            all == record_views(records@),
            topic_total(all) <= u64::MAX,
            done <= records@.len(),
            catalog_so_far(count_views(counts@), all, done as int, 0),
        decreases records@.len() - done,
    {
        let topics = records[done].entry.entry().topics.as_slice();
        let ghost words = all[done as int].entry.topics;
        proof {
            assert(words == crate::record::topic_words(topics@));
            lemma_topic_total_prefix(all, done as int + 1);
            assert(all.take(done + 1).drop_last() =~= all.take(done as int));
        }
        let mut step: usize = 0;
        while step < topics.len()
            invariant
                all == record_views(records@),
                topic_total(all) <= u64::MAX,
                done < records@.len(),
                words == all[done as int].entry.topics,
                words == crate::record::topic_words(topics@),
                step <= topics@.len(),
                topic_total(all.take(done + 1)) <= topic_total(all),
                all.take(done + 1).drop_last() == all.take(done as int),
                catalog_so_far(count_views(counts@), all, done as int, step as int),
            decreases topics@.len() - step,
        {
            let key_topic = &topics[step];
            let key = key_topic.as_str().as_bytes();
            let ghost word = words[step as int];
            let ghost before_counts = count_views(counts@);
            proof {
                assert(word == key_topic@);
                assert(words.take(step + 1).drop_last() =~= words.take(step as int));
                assert(words.take(step + 1).last() == word);
            }
            proof {
                assert forall|i: int, j: int| 0 <= i < j < counts@.len() implies bytes_before(
                    encode_utf8(#[trigger] counts@[i].topic@),
                    encode_utf8(#[trigger] counts@[j].topic@),
                ) by {
                    assert(before_counts[i].0 == counts@[i].topic@);
                    assert(before_counts[j].0 == counts@[j].topic@);
                }
            }
            let (at, found) = position_for(&counts, key);
            if found {
                proof {
                    let prior = partial_count(all, done as int, step as int, word);
                    assert(before_counts[at as int].0 == word) by {
                        assert(before_counts[at as int].0 == counts@[at as int].topic@);
                        assert(encode_utf8(before_counts[at as int].0) == encode_utf8(word));
                        assert(decode_utf8(encode_utf8(before_counts[at as int].0)) == decode_utf8(
                            encode_utf8(word),
                        ));
                    }
                    lemma_occurrences_bound(all.take(done as int), word);
                    lemma_count_in_bound(words.take(step as int), word);
                    assert(prior <= topic_total(all.take(done as int)) + step);
                    assert(topic_total(all.take(done + 1)) == topic_total(all.take(done as int))
                        + words.len());
                }
                let entries = counts[at].entries + 1;
                let topic = counts[at].topic.clone();
                counts.set(at, TopicCount { topic, entries });
                proof {
                    let now = count_views(counts@);
                    assert forall|i: int| 0 <= i < now.len() implies (#[trigger] now[i]).1
                        == partial_count(all, done as int, step + 1, now[i].0) && now[i].1
                        > 0 by {
                        assert(before_counts[i].1 == partial_count(
                            all,
                            done as int,
                            step as int,
                            before_counts[i].0,
                        ));
                        if i != at {
                            assert(before_counts[i].0 != word) by {
                                if before_counts[i].0 == word {
                                    if i < at {
                                        lemma_bytes_order(
                                            encode_utf8(word),
                                            encode_utf8(word),
                                            encode_utf8(word),
                                        );
                                    } else {
                                        assert(bytes_before(
                                            encode_utf8(before_counts[at as int].0),
                                            encode_utf8(before_counts[i].0),
                                        ));
                                        lemma_bytes_order(
                                            encode_utf8(word),
                                            encode_utf8(word),
                                            encode_utf8(word),
                                        );
                                    }
                                }
                            }
                        }
                    }
                    assert forall|w: Seq<char>| #[trigger]
                        partial_count(all, done as int, step + 1, w) > 0 implies exists|i: int|
                        0 <= i < now.len() && #[trigger] now[i].0 == w by {
                        if w == word {
                            assert(now[at as int].0 == w);
                        } else {
                            assert(partial_count(all, done as int, step as int, w) > 0);
                            let i = choose|i: int|
                                0 <= i < before_counts.len() && #[trigger] before_counts[i].0 == w;
                            assert(now[i].0 == w);
                        }
                    }
                    assert forall|i: int, j: int| 0 <= i < j < now.len() implies bytes_before(
                        encode_utf8(#[trigger] now[i].0),
                        encode_utf8(#[trigger] now[j].0),
                    ) by {
                        assert(now[i].0 == before_counts[i].0);
                        assert(now[j].0 == before_counts[j].0);
                    }
                }
            } else {
                let ghost old_len = counts@.len();
                counts.insert(at, TopicCount { topic: key_topic.clone(), entries: 1 });
                proof {
                    let now = count_views(counts@);
                    assert(now =~= before_counts.insert(at as int, (word, 1u64)));
                    assert forall|i: int| 0 <= i < before_counts.len() implies before_counts[i].0
                        != word by {
                        if before_counts[i].0 == word {
                            if i < at {
                                lemma_bytes_order(encode_utf8(word), encode_utf8(word), encode_utf8(word));
                            } else {
                                if i > at {
                                    lemma_bytes_order(
                                        encode_utf8(word),
                                        encode_utf8(before_counts[at as int].0),
                                        encode_utf8(before_counts[i].0),
                                    );
                                }
                                lemma_bytes_order(encode_utf8(word), encode_utf8(word), encode_utf8(word));
                            }
                        }
                    }
                    assert(partial_count(all, done as int, step as int, word) == 0) by {
                        if partial_count(all, done as int, step as int, word) > 0 {
                            let i = choose|i: int|
                                0 <= i < before_counts.len() && #[trigger] before_counts[i].0 == word;
                        }
                    }
                    assert forall|i: int| 0 <= i < now.len() implies (#[trigger] now[i]).1
                        == partial_count(all, done as int, step + 1, now[i].0) && now[i].1
                        > 0 by {
                        if i < at {
                            assert(now[i] == before_counts[i]);
                            assert(before_counts[i].1 == partial_count(
                                all,
                                done as int,
                                step as int,
                                before_counts[i].0,
                            ));
                        } else if i > at {
                            assert(now[i] == before_counts[i - 1]);
                            assert(before_counts[i - 1].1 == partial_count(
                                all,
                                done as int,
                                step as int,
                                before_counts[i - 1].0,
                            ));
                        }
                    }
                    assert forall|w: Seq<char>| #[trigger]
                        partial_count(all, done as int, step + 1, w) > 0 implies exists|i: int|
                        0 <= i < now.len() && #[trigger] now[i].0 == w by {
                        if w == word {
                            assert(now[at as int].0 == w);
                        } else {
                            assert(partial_count(all, done as int, step as int, w) > 0);
                            let i = choose|i: int|
                                0 <= i < before_counts.len() && #[trigger] before_counts[i].0 == w;
                            if i < at {
                                assert(now[i].0 == w);
                            } else {
                                assert(now[i + 1].0 == w);
                            }
                        }
                    }
                    assert forall|i: int, j: int| 0 <= i < j < now.len() implies bytes_before(
                        encode_utf8(#[trigger] now[i].0),
                        encode_utf8(#[trigger] now[j].0),
                    ) by {
                        if j < at {
                            assert(now[i] == before_counts[i] && now[j] == before_counts[j]);
                        } else if j == at {
                            assert(now[i] == before_counts[i]);
                        } else if i < at {
                            assert(now[i] == before_counts[i] && now[j] == before_counts[j - 1]);
                            lemma_bytes_order(
                                encode_utf8(before_counts[i].0),
                                encode_utf8(word),
                                encode_utf8(before_counts[j - 1].0),
                            );
                            if j - 1 > at {
                                lemma_bytes_order(
                                    encode_utf8(word),
                                    encode_utf8(before_counts[at as int].0),
                                    encode_utf8(before_counts[j - 1].0),
                                );
                            }
                        } else if i == at {
                            assert(now[j] == before_counts[j - 1]);
                            if j - 1 > at {
                                lemma_bytes_order(
                                    encode_utf8(word),
                                    encode_utf8(before_counts[at as int].0),
                                    encode_utf8(before_counts[j - 1].0),
                                );
                            }
                        } else {
                            assert(now[i] == before_counts[i - 1] && now[j] == before_counts[j - 1]);
                        }
                    }
                }
            }
            step = step + 1;
        }
        proof {
            assert(words.take(words.len() as int) =~= words);
            let now = count_views(counts@);
            assert forall|w: Seq<char>| partial_count(all, done + 1, 0, w) == partial_count(
                all,
                done as int,
                words.len() as int,
                w,
            ) by {
                assert(words.take(0) =~= Seq::<Seq<char>>::empty());
            }
            assert forall|i: int| 0 <= i < now.len() implies (#[trigger] now[i]).1
                == partial_count(all, done + 1, 0, now[i].0) && now[i].1 > 0 by {
                assert(partial_count(all, done + 1, 0, now[i].0) == partial_count(
                    all,
                    done as int,
                    words.len() as int,
                    now[i].0,
                ));
            }
            assert forall|w: Seq<char>| #[trigger] partial_count(all, done + 1, 0, w) > 0 implies exists|i: int|
                0 <= i < now.len() && #[trigger] now[i].0 == w by {
                assert(partial_count(all, done + 1, 0, w) == partial_count(
                    all,
                    done as int,
                    words.len() as int,
                    w,
                ));
            }
        }
        done = done + 1;
    }
    proof {
        assert(all.take(done as int) =~= all);
        let now = count_views(counts@);
        assert forall|w: Seq<char>| partial_count(all, done as int, 0, w) == occurrences(all, w) by {}
        assert forall|i: int| 0 <= i < now.len() implies (#[trigger] now[i]).1 == occurrences(
            all,
            now[i].0,
        ) && now[i].1 > 0 by {
            assert(partial_count(all, done as int, 0, now[i].0) == occurrences(all, now[i].0));
        }
        assert forall|w: Seq<char>| #[trigger] occurrences(all, w) > 0 implies exists|i: int|
            0 <= i < now.len() && #[trigger] now[i].0 == w by {
            assert(partial_count(all, done as int, 0, w) == occurrences(all, w));
        }
    }
    counts
}

/// The query that sees every record the privacy selection lets through.
pub open spec fn catalog_query(privacy_selection: MagnitudeSelection) -> RecordQuery {
    RecordQuery {
        topic_selection: TopicSelection::Any,
        kind: None,
        certainty_selection: MagnitudeSelection::Any,
        recorded_time_selection: RecordedTimeSelection::Any,
        privacy_selection,
        mode: ObservationMode::SummaryOnly,
    }
}

/// The records a catalog with this privacy selection counts.
pub open spec fn catalog_records(
    records: Seq<StoredRecordView>,
    privacy_selection: MagnitudeSelection,
) -> Seq<StoredRecordView> {
    records_where(records, |record: StoredRecordView| record_matches(catalog_query(privacy_selection), record))
}

/// The topics of the public records (exact-`Zero` privacy), as the
/// `Observe Topics` reply lists them.
#[derive(Debug, PartialEq, Eq)]
pub struct TopicsObserved {
    pub topics: Vec<TopicCount>,
}

impl SpiritStore {
    /// The catalog of the records the privacy selection lets through.
    pub fn topic_counts(&self, privacy_selection: MagnitudeSelection) -> (counts: Vec<TopicCount>)
        requires
            topic_total(catalog_records(self@, privacy_selection)) <= u64::MAX,
        ensures
            is_catalog(count_views(counts@), catalog_records(self@, privacy_selection)),
    {
        let query = RecordQuery {
            topic_selection: TopicSelection::Any,
            kind: None,
            certainty_selection: MagnitudeSelection::Any,
            recorded_time_selection: RecordedTimeSelection::Any,
            privacy_selection,
            mode: ObservationMode::SummaryOnly,
        };
        let records = self.records_for_query(&query);
        topic_counts(&records)
    }

    /// The topic catalog of the public records.
    pub fn observe_topics(&self) -> (observed: Result<TopicsObserved, Error>)
        requires
            topic_total(
                catalog_records(self@, MagnitudeSelection::Exact(Magnitude::Zero)),
            ) <= u64::MAX,
        ensures
            observed matches Ok(reply) && is_catalog(
                count_views(reply.topics@),
                catalog_records(self@, MagnitudeSelection::Exact(Magnitude::Zero)),
            ),
    {
        Ok(TopicsObserved { topics: self.topic_counts(MagnitudeSelection::default_observation_privacy()) })
    }
}

} // verus!
