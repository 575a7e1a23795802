//! The upgrade-log actor: hands out an identifier for each appended
//! boundary outcome and returns the log on request.

use vstd::prelude::*;

use crate::schema_poc::spirit_upgrade_log::{
    Identifier, UpgradeEntryAppended, UpgradeLogAction, UpgradeLogEntry, UpgradeLogResponse,
    UpgradeLogReturned,
};
use crate::history::{count_set, lemma_count_grows, lemma_counter_prefix};
use crate::vec_copy::copy_all;

verus! {

/// The upgrade log: its entries and the next identifier to hand out, which
/// starts at zero.
pub struct SpiritUpgradeLog {
    entries: Vec<UpgradeLogEntry>,
    next_identifier: u64,
}

impl SpiritUpgradeLog {
    pub closed spec fn entries(&self) -> Seq<UpgradeLogEntry> {
        self.entries@
    }

    pub closed spec fn next_identifier(&self) -> u64 {
        self.next_identifier
    }

    pub fn new() -> (log: Self)
        ensures
            log.entries().len() == 0,
            log.next_identifier() == 0,
    {
        SpiritUpgradeLog { entries: Vec::new(), next_identifier: 0 }
    }

    /// The match block between the log's actions and its responses. An
    /// append is answered with a fresh identifier; the entry itself is
    /// stamped and kept by the storage handle, not here.
    pub fn handle(&mut self, action: UpgradeLogAction) -> (response: UpgradeLogResponse)
        requires
            action is AppendUpgradeEntry ==> old(self).next_identifier() < u64::MAX,
        ensures
            final(self).entries() == old(self).entries(),
            final(self).next_identifier() == old(self).next_identifier() + if action is AppendUpgradeEntry {
                1int
            } else {
                0int
            },
            match action {
                UpgradeLogAction::AppendUpgradeEntry(_) => {
                    &&& response == UpgradeLogResponse::UpgradeEntryAppended(
                        UpgradeEntryAppended(Identifier(old(self).next_identifier())),
                    )
                    &&& final(self).next_identifier() == old(self).next_identifier() + 1
                },
                UpgradeLogAction::QueryUpgradeLog(_) => {
                    &&& response matches UpgradeLogResponse::UpgradeLogReturned(returned)
                        && returned.0@ == old(self).entries()
                    &&& final(self).next_identifier() == old(self).next_identifier()
                },
            },
    {
        match action {
            UpgradeLogAction::AppendUpgradeEntry(_request) => {
                let identifier_value = self.next_identifier;
                self.next_identifier = identifier_value + 1;
                UpgradeLogResponse::UpgradeEntryAppended(
                    UpgradeEntryAppended(Identifier(identifier_value)),
                )
            },
            UpgradeLogAction::QueryUpgradeLog(_request) => {
                UpgradeLogResponse::UpgradeLogReturned(UpgradeLogReturned(copy_all(&self.entries)))
            },
        }
    }
}

impl Default for SpiritUpgradeLog {
    fn default() -> (log: Self)
        ensures
            log.entries().len() == 0,
            log.next_identifier() == 0,
    {
        Self::new()
    }
}

/// Which actions of a run append an entry.
pub open spec fn append_flags(actions: Seq<UpgradeLogAction>) -> Seq<bool> {
    Seq::new(actions.len(), |k: int| actions[k] is AppendUpgradeEntry)
}

/// A fresh log hands out 0, 1, 2, ... to its appends whatever queries
/// arrive in between, whatever each append carries: each append is
/// answered with the number of appends before it, so no identifier repeats.
pub proof fn law_appends_count_up(
    logs: Seq<SpiritUpgradeLog>,
    actions: Seq<UpgradeLogAction>,
    responses: Seq<UpgradeLogResponse>,
)
    requires
        logs.len() == actions.len() + 1,
        responses.len() == actions.len(),
        logs[0].next_identifier() == 0,
        forall|i: int|
            0 <= i < actions.len() ==> #[trigger] logs[i + 1].next_identifier()
                == logs[i].next_identifier() + if actions[i] is AppendUpgradeEntry {
                1int
            } else {
                0int
            },
        forall|i: int|
            0 <= i < actions.len() && actions[i] is AppendUpgradeEntry ==> #[trigger] responses[i]
                == UpgradeLogResponse::UpgradeEntryAppended(
                UpgradeEntryAppended(Identifier(logs[i].next_identifier())),
            ),
    ensures
        forall|i: int|
            0 <= i < logs.len() ==> #[trigger] logs[i].next_identifier() == count_set(
                append_flags(actions).take(i),
            ),
        forall|i: int|
            0 <= i < actions.len() && actions[i] is AppendUpgradeEntry ==> #[trigger] responses[i]
                == UpgradeLogResponse::UpgradeEntryAppended(
                UpgradeEntryAppended(Identifier(count_set(append_flags(actions).take(i)) as u64)),
            ),
        forall|i: int, j: int|
            0 <= i < j < actions.len() && actions[i] is AppendUpgradeEntry
                && actions[j] is AppendUpgradeEntry ==> #[trigger] responses[i]
                != #[trigger] responses[j],
{
    let flags = append_flags(actions);
    let counters = Seq::new(logs.len(), |k: int| logs[k].next_identifier() as int);
    assert forall|k: int| 0 <= k < flags.len() implies #[trigger] counters[k + 1] == counters[k]
        + if flags[k] {
        1int
    } else {
        0int
    } by {
        assert(logs[k + 1].next_identifier() == logs[k].next_identifier() + if actions[k] is AppendUpgradeEntry {
            1int
        } else {
            0int
        });
    }
    assert forall|i: int| 0 <= i < logs.len() implies #[trigger] logs[i].next_identifier()
        == count_set(flags.take(i)) by {
        lemma_counter_prefix(counters, flags, 0, i);
    }
    assert forall|i: int, j: int|
        0 <= i < j < actions.len() && actions[i] is AppendUpgradeEntry
            && actions[j] is AppendUpgradeEntry implies #[trigger] responses[i]
            != #[trigger] responses[j] by {
        lemma_count_grows(flags, i, j);
        lemma_counter_prefix(counters, flags, 0, i);
        lemma_counter_prefix(counters, flags, 0, j);
    }
}

} // verus!
