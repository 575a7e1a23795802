//! The recorder actor: mints record identifiers, answers record reads and
//! counts its record subscriptions.

use vstd::prelude::*;

verus! {

/// The recorder's ACTION enum.
#[derive(Debug, Clone, PartialEq, Eq)]
pub enum RecorderAction {
    RecordEntry(RecordEntry),
    ObserveRecorder(ObserveRecorder),
    SnapshotRecords(SnapshotRecords),
    OpenRecordSubscription(OpenRecordSubscription),
    CloseRecordSubscription(CloseRecordSubscription),
    QueryStatus,
}

/// The recorder's RESPONSE enum, with the universal `Unknown` floor.
#[derive(Debug, Clone, PartialEq, Eq)]
pub enum RecorderResponse {
    RecordAccepted(u64),
    RecordsObserved(Vec<RecordDescription>),
    RecordSnapshotReturned(Vec<RecordDescription>),
    SubscriptionOpened(u64),
    SubscriptionRetracted(u64),
    StatusReturned(RecorderStatus),
    /// Every actor can say it does not know what is asked, without
    /// panicking or dropping the message.
    Unknown(String),
}

#[derive(Debug, Clone, PartialEq, Eq)]
pub struct RecordEntry {
    pub topic: String,
    pub description: String,
}

#[derive(Debug, Clone, PartialEq, Eq)]
pub struct ObserveRecorder {
    pub topic_filter: Option<String>,
}

#[derive(Debug, Clone, PartialEq, Eq)]
pub struct SnapshotRecords {
    pub topic_filter: Option<String>,
}

#[derive(Debug, Clone, PartialEq, Eq)]
pub struct OpenRecordSubscription {
    pub topic_filter: Option<String>,
}

#[derive(Debug, Clone, PartialEq, Eq)]
pub struct CloseRecordSubscription {
    pub token: u64,
}

#[derive(Debug, Clone, PartialEq, Eq)]
pub struct RecordDescription {
    pub identifier: u64,
    pub topic: String,
    pub description: String,
}

#[derive(Debug, Clone, PartialEq, Eq)]
pub struct RecorderStatus {
    pub records_written: u64,
    pub subscriptions_open: u64,
    pub health_level: RecordHealthLevel,
}

#[derive(Debug, Clone, Copy, PartialEq, Eq, Structural)]
pub enum RecordHealthLevel {
    Nominal,
    Degraded,
    Recovering,
}

/// The recorder engine: the next identifier to mint and the number of open
/// record subscriptions.
pub struct SpiritRecorder {
    storage: crate::schema_driven::storage::SpiritStorageHandle,
    next_identifier: u64,
    open_subscriptions: u64,
}

/// Counters wrap at the end of `u64`, as atomic counters do.
pub open spec fn wrapping_increment(value: u64) -> u64 {
    if value == u64::MAX {
        0
    } else {
        (value + 1) as u64
    }
}

/// Whether `response` is what a recorder in state (`next`, `open`) gives
/// to `action`.
pub open spec fn recorder_responds(
    next: u64,
    open: u64,
    action: RecorderAction,
    response: RecorderResponse,
) -> bool {
    match action {
        RecorderAction::RecordEntry(_) => response == RecorderResponse::RecordAccepted(next),
        RecorderAction::ObserveRecorder(_) => response matches RecorderResponse::RecordsObserved(
            records,
        ) && records@.len() == 0,
        RecorderAction::SnapshotRecords(_) => response matches RecorderResponse::RecordSnapshotReturned(
            records,
        ) && records@.len() == 0,
        RecorderAction::OpenRecordSubscription(_) => response
            == RecorderResponse::SubscriptionOpened(wrapping_increment(open)),
        RecorderAction::CloseRecordSubscription(close) => response
            == RecorderResponse::SubscriptionRetracted(close.token),
        RecorderAction::QueryStatus => response == RecorderResponse::StatusReturned(
            RecorderStatus {
                records_written: if next > 0 {
                    (next - 1) as u64
                } else {
                    0
                },
                subscriptions_open: open,
                health_level: RecordHealthLevel::Nominal,
            },
        ),
    }
}

/// The next identifier after `action` when it was `before`: a recorded
/// entry takes one and moves the counter on.
pub open spec fn identifier_after_action(before: u64, action: RecorderAction) -> u64 {
    if action is RecordEntry {
        wrapping_increment(before)
    } else {
        before
    }
}

/// How many of `actions` record an entry.
pub open spec fn entries_in(actions: Seq<RecorderAction>) -> nat
    decreases actions.len(),
{
    if actions.len() == 0 {
        0
    } else {
        entries_in(actions.drop_last()) + if actions.last() is RecordEntry {
            1nat
        } else {
            0nat
        }
    }
}

/// The entries among the first `i` actions are no more than among all.
proof fn lemma_entries_grow(actions: Seq<RecorderAction>, i: int)
    requires
        0 <= i <= actions.len(),
    ensures
        entries_in(actions.take(i)) <= entries_in(actions),
    decreases actions.len() - i,
{
    if i < actions.len() {
        lemma_entries_grow(actions, i + 1);
        assert(actions.take(i + 1).drop_last() =~= actions.take(i));
    }
    assert(actions.take(actions.len() as int) =~= actions);
}

/// The identifier count after the first `i` actions of a run from 1.
proof fn lemma_identifiers_prefix(recorders: Seq<SpiritRecorder>, actions: Seq<RecorderAction>, i: int)
    requires
        recorders.len() == actions.len() + 1,
        recorders[0].next_identifier() == 1,
        entries_in(actions) < u64::MAX,
        forall|k: int|
            0 <= k < actions.len() ==> #[trigger] recorders[k + 1].next_identifier()
                == identifier_after_action(recorders[k].next_identifier(), actions[k]),
        0 <= i < recorders.len(),
    ensures
        recorders[i].next_identifier() == entries_in(actions.take(i)) + 1,
    decreases i,
{
    if i > 0 {
        lemma_identifiers_prefix(recorders, actions, i - 1);
        lemma_entries_grow(actions, i);
        assert(actions.take(i).drop_last() =~= actions.take(i - 1));
        assert(actions.take(i).last() == actions[i - 1]);
        let k = i - 1;
        assert(recorders[k + 1].next_identifier() == identifier_after_action(
            recorders[k].next_identifier(),
            actions[k],
        ));
    }
}

/// A recorder that starts from identifier 1 accepts its entries as 1, 2,
/// 3, ... whatever else arrives in between, and its status reports as
/// written exactly the entries recorded before it (while fewer than
/// `u64::MAX` entries arrive).
pub proof fn law_records_written_counts_entries(
    recorders: Seq<SpiritRecorder>,
    actions: Seq<RecorderAction>,
    responses: Seq<RecorderResponse>,
)
    requires
        recorders.len() == actions.len() + 1,
        responses.len() == actions.len(),
        recorders[0].next_identifier() == 1,
        entries_in(actions) < u64::MAX,
        forall|i: int|
            0 <= i < actions.len() ==> #[trigger] recorders[i + 1].next_identifier()
                == identifier_after_action(recorders[i].next_identifier(), actions[i]),
        forall|i: int|
            0 <= i < actions.len() ==> recorder_responds(
                recorders[i].next_identifier(),
                recorders[i].open_subscriptions(),
                actions[i],
                #[trigger] responses[i],
            ),
    ensures
        forall|i: int|
            0 <= i < recorders.len() ==> #[trigger] recorders[i].next_identifier() == entries_in(
                actions.take(i),
            ) + 1,
        forall|i: int|
            0 <= i < actions.len() && actions[i] is RecordEntry ==> #[trigger] responses[i]
                == RecorderResponse::RecordAccepted((entries_in(actions.take(i)) + 1) as u64),
        forall|i: int|
            0 <= i < actions.len() && actions[i] is QueryStatus ==> (#[trigger] responses[i]
                matches RecorderResponse::StatusReturned(status) && status.records_written
                == entries_in(actions.take(i))),
{
    assert forall|i: int| 0 <= i < recorders.len() implies #[trigger] recorders[i].next_identifier()
        == entries_in(actions.take(i)) + 1 by {
        lemma_identifiers_prefix(recorders, actions, i);
    }
    assert forall|i: int| 0 <= i < actions.len() && actions[i] is QueryStatus implies (
    #[trigger] responses[i] matches RecorderResponse::StatusReturned(status) && status.records_written
        == entries_in(actions.take(i))) by {
        lemma_identifiers_prefix(recorders, actions, i);
        assert(recorder_responds(
            recorders[i].next_identifier(),
            recorders[i].open_subscriptions(),
            actions[i],
            responses[i],
        ));
    }
    assert forall|i: int| 0 <= i < actions.len() && actions[i] is RecordEntry implies #[trigger] responses[i]
        == RecorderResponse::RecordAccepted((entries_in(actions.take(i)) + 1) as u64) by {
        lemma_identifiers_prefix(recorders, actions, i);
        assert(recorder_responds(
            recorders[i].next_identifier(),
            recorders[i].open_subscriptions(),
            actions[i],
            responses[i],
        ));
    }
}

impl SpiritRecorder {
    pub fn new(storage: crate::schema_driven::storage::SpiritStorageHandle) -> (recorder: Self)
        ensures
            recorder.next_identifier() == 1,
            recorder.open_subscriptions() == 0,
    {
        SpiritRecorder { storage, next_identifier: 1, open_subscriptions: 0 }
    }

    pub closed spec fn next_identifier(&self) -> u64 {
        self.next_identifier
    }

    pub closed spec fn open_subscriptions(&self) -> u64 {
        self.open_subscriptions
    }

    /// The match block between the recorder's actions and its responses.
    pub fn handle(&mut self, action: RecorderAction) -> (response: RecorderResponse)
        ensures
            final(self).next_identifier() == identifier_after_action(
                old(self).next_identifier(),
                action,
            ),
            match action {
                RecorderAction::RecordEntry(_) => {
                    &&& final(self).next_identifier() == wrapping_increment(
                        old(self).next_identifier(),
                    )
                    &&& final(self).open_subscriptions() == old(self).open_subscriptions()
                },
                RecorderAction::OpenRecordSubscription(_) => {
                    &&& final(self).next_identifier() == old(self).next_identifier()
                    &&& final(self).open_subscriptions() == wrapping_increment(
                        old(self).open_subscriptions(),
                    )
                },
                RecorderAction::CloseRecordSubscription(_) => {
                    &&& final(self).next_identifier() == old(self).next_identifier()
                    &&& final(self).open_subscriptions() == if old(self).open_subscriptions() > 0 {
                        (old(self).open_subscriptions() - 1) as u64
                    } else {
                        0
                    }
                },
                _ => {
                    &&& final(self).next_identifier() == old(self).next_identifier()
                    &&& final(self).open_subscriptions() == old(self).open_subscriptions()
                },
            },
            recorder_responds(
                old(self).next_identifier(),
                old(self).open_subscriptions(),
                action,
                response,
            ),
    {
        match action {
            RecorderAction::RecordEntry(payload) => self.record_entry(payload),
            RecorderAction::ObserveRecorder(filter) => self.observe(filter),
            RecorderAction::SnapshotRecords(filter) => self.snapshot(filter),
            RecorderAction::OpenRecordSubscription(payload) => self.open_subscription(payload),
            RecorderAction::CloseRecordSubscription(close) => self.close_subscription(close),
            RecorderAction::QueryStatus => self.status(),
        }
    }

    fn record_entry(&mut self, payload: RecordEntry) -> (response: RecorderResponse)
        ensures
            response == RecorderResponse::RecordAccepted(old(self).next_identifier),
            final(self).next_identifier == wrapping_increment(old(self).next_identifier),
            final(self).open_subscriptions == old(self).open_subscriptions,
    {
        let identifier = self.next_identifier;
        self.next_identifier = if identifier == u64::MAX {
            0
        } else {
            identifier + 1
        };
        RecorderResponse::RecordAccepted(identifier)
    }

    fn observe(&self, filter: ObserveRecorder) -> (response: RecorderResponse)
        ensures
            response matches RecorderResponse::RecordsObserved(records) && records@.len() == 0,
    {
        RecorderResponse::RecordsObserved(Vec::new())
    }

    fn snapshot(&self, filter: SnapshotRecords) -> (response: RecorderResponse)
        ensures
            response matches RecorderResponse::RecordSnapshotReturned(records) && records@.len() == 0,
    {
        RecorderResponse::RecordSnapshotReturned(Vec::new())
    }

    fn open_subscription(&mut self, payload: OpenRecordSubscription) -> (response: RecorderResponse)
        ensures
            response == RecorderResponse::SubscriptionOpened(
                wrapping_increment(old(self).open_subscriptions),
            ),
            final(self).open_subscriptions == wrapping_increment(old(self).open_subscriptions),
            final(self).next_identifier == old(self).next_identifier,
    {
        let token = if self.open_subscriptions == u64::MAX {
            0
        } else {
            self.open_subscriptions + 1
        };
        self.open_subscriptions = token;
        RecorderResponse::SubscriptionOpened(token)
    }

    fn close_subscription(&mut self, close: CloseRecordSubscription) -> (response: RecorderResponse)
        ensures
            response == RecorderResponse::SubscriptionRetracted(close.token),
            final(self).open_subscriptions == if old(self).open_subscriptions > 0 {
                (old(self).open_subscriptions - 1) as u64
            } else {
                0
            },
            final(self).next_identifier == old(self).next_identifier,
    {
        if self.open_subscriptions > 0 {
            self.open_subscriptions = self.open_subscriptions - 1;
        }
        RecorderResponse::SubscriptionRetracted(close.token)
    }

    fn status(&self) -> (response: RecorderResponse)
        ensures
            recorder_responds(
                self.next_identifier,
                self.open_subscriptions,
                RecorderAction::QueryStatus,
                response,
            ),
    {
        RecorderResponse::StatusReturned(
            RecorderStatus {
                records_written: if self.next_identifier > 0 {
                    self.next_identifier - 1
                } else {
                    0
                },
                subscriptions_open: self.open_subscriptions,
                health_level: RecordHealthLevel::Nominal,
            },
        )
    }
}

} // verus!
