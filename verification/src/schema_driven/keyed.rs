//! Small keyed tables held as sequences of (key, value) pairs: the
//! subscription and sink tables of the actor engines. A table whose keys
//! are distinct behaves as a map; replacing an entry is dropping the old
//! one and appending the new.

use vstd::prelude::*;

verus! {

/// The entries of `table` other than the one under `key`.
pub open spec fn without_key<K, V>(table: Seq<(K, V)>, key: K) -> Seq<(K, V)>
    decreases table.len(),
{
    if table.len() == 0 {
        table
    } else {
        let rest = without_key(table.drop_last(), key);
        if table.last().0 == key {
            rest
        } else {
            rest.push(table.last())
        }
    }
}

/// Whether some entry of `table` is under `key`.
pub open spec fn has_key<K, V>(table: Seq<(K, V)>, key: K) -> bool {
    exists|i: int| 0 <= i < table.len() && #[trigger] table[i].0 == key
}

/// No key occurs twice in `table`.
pub open spec fn distinct_keys<K, V>(table: Seq<(K, V)>) -> bool {
    forall|i: int, j: int|
        0 <= i < table.len() && 0 <= j < table.len() && i != j ==> #[trigger] table[i].0
            != #[trigger] table[j].0
}

pub proof fn lemma_without_key_members<K, V>(table: Seq<(K, V)>, key: K, other: K)
    ensures
        has_key(without_key(table, key), other) == (has_key(table, other) && other
            != key),
    decreases table.len(),
{
    if table.len() > 0 {
        let init = table.drop_last();
        lemma_without_key_members(init, key, other);
        let rest = without_key(init, key);
        if has_key(table, other) && other != key {
            let i = choose|i: int| 0 <= i < table.len() && #[trigger] table[i].0 == other;
            if i < init.len() {
                assert(init[i].0 == other);
                assert(has_key(init, other));
                let k = choose|k: int| 0 <= k < rest.len() && #[trigger] rest[k].0 == other;
                if table.last().0 != key {
                    assert(rest.push(table.last())[k].0 == other);
                }
            } else {
                assert(table.last().0 == other);
                assert(rest.push(table.last())[rest.len() as int].0 == other);
            }
        }
        if has_key(without_key(table, key), other) {
            if table.last().0 != key {
                let pushed = rest.push(table.last());
                let k = choose|k: int| 0 <= k < pushed.len() && #[trigger] pushed[k].0 == other;
                if k < rest.len() {
                    assert(rest[k].0 == other);
                    let i = choose|i: int| 0 <= i < init.len() && #[trigger] init[i].0 == other;
                    assert(table[i].0 == other);
                } else {
                    assert(table[table.len() - 1].0 == other);
                }
            } else {
                let i = choose|i: int| 0 <= i < init.len() && #[trigger] init[i].0 == other;
                assert(table[i].0 == other);
            }
        }
    }
}

pub proof fn lemma_without_key_distinct<K, V>(table: Seq<(K, V)>, key: K)
    requires
        distinct_keys(table),
    ensures
        distinct_keys(without_key(table, key)),
        !has_key(without_key(table, key), key),
    decreases table.len(),
{
    lemma_without_key_members(table, key, key);
    if table.len() > 0 {
        let init = table.drop_last();
        assert(distinct_keys(init)) by {
            assert forall|i: int, j: int|
                0 <= i < init.len() && 0 <= j < init.len() && i != j implies #[trigger] init[i].0
                != #[trigger] init[j].0 by {
                assert(table[i].0 != table[j].0);
            }
        }
        lemma_without_key_distinct(init, key);
        let rest = without_key(init, key);
        if table.last().0 != key {
            lemma_without_key_members(init, key, table.last().0);
            if has_key(init, table.last().0) {
                let i = choose|i: int| 0 <= i < init.len() && #[trigger] init[i].0 == table.last().0;
                assert(table[i].0 == table[table.len() - 1].0);
            }
            let pushed = rest.push(table.last());
            assert forall|i: int, j: int|
                0 <= i < pushed.len() && 0 <= j < pushed.len() && i != j implies #[trigger] pushed[i].0
                != #[trigger] pushed[j].0 by {
                if i < rest.len() && j < rest.len() {
                    assert(rest[i].0 != rest[j].0);
                } else if i < rest.len() {
                    assert(rest[i].0 == pushed[i].0);
                } else {
                    assert(rest[j].0 == pushed[j].0);
                }
            }
        }
    }
}

pub proof fn lemma_without_key_absent<K, V>(table: Seq<(K, V)>, key: K)
    requires
        !has_key(table, key),
    ensures
        without_key(table, key) == table,
    decreases table.len(),
{
    if table.len() > 0 {
        let init = table.drop_last();
        assert(!has_key(init, key)) by {
            if has_key(init, key) {
                let i = choose|i: int| 0 <= i < init.len() && #[trigger] init[i].0 == key;
                assert(table[i].0 == key);
            }
        }
        lemma_without_key_absent(init, key);
        assert(table[table.len() - 1].0 != key);
        assert(init.push(table.last()) =~= table);
    }
}

pub proof fn lemma_without_key_at<K, V>(table: Seq<(K, V)>, key: K, index: int)
    requires
        distinct_keys(table),
        0 <= index < table.len(),
        table[index].0 == key,
    ensures
        without_key(table, key) == table.remove(index),
    decreases table.len(),
{
    let init = table.drop_last();
    if index == table.len() - 1 {
        assert(!has_key(init, key)) by {
            if has_key(init, key) {
                let i = choose|i: int| 0 <= i < init.len() && #[trigger] init[i].0 == key;
                assert(table[i].0 == table[index].0);
            }
        }
        lemma_without_key_absent(init, key);
        assert(init =~= table.remove(index));
    } else {
        assert(distinct_keys(init)) by {
            assert forall|i: int, j: int|
                0 <= i < init.len() && 0 <= j < init.len() && i != j implies #[trigger] init[i].0
                != #[trigger] init[j].0 by {
                assert(table[i].0 != table[j].0);
            }
        }
        assert(init[index].0 == key);
        lemma_without_key_at(init, key, index);
        assert(table[table.len() - 1].0 != table[index].0);
        assert(init.remove(index).push(table.last()) =~= table.remove(index));
    }
}

/// Putting an entry under `key` and then dropping `key` leaves the table as
/// dropping `key` alone does: a key handed out and then given back leaves
/// nothing behind.
pub proof fn lemma_put_then_drop<K, V>(table: Seq<(K, V)>, key: K, value: V)
    ensures
        without_key(without_key(table, key).push((key, value)), key) == without_key(table, key),
        has_key(without_key(table, key).push((key, value)), key),
{
    let rest = without_key(table, key);
    lemma_without_key_members(table, key, key);
    lemma_without_key_absent(rest, key);
    let pushed = rest.push((key, value));
    assert(pushed.drop_last() =~= rest);
    assert(pushed[rest.len() as int].0 == key);
}

} // verus!
