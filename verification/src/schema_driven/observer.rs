//! The observer actor: the fan-out hub for live event subscribers.
//!
//! It holds the subscription table (token -> topic filter) and answers a
//! captured record with the number of subscribers whose filter admits the
//! record's topic.

use vstd::prelude::*;

use crate::schema_driven::keyed::{
    distinct_keys, has_key, lemma_put_then_drop, lemma_without_key_absent, lemma_without_key_at,
    lemma_without_key_distinct, without_key,
};

verus! {

/// The observer's ACTION enum.
#[derive(Debug, Clone, PartialEq, Eq)]
pub enum ObserverAction {
    OpenObserverSubscription(OpenObserverSubscription),
    CloseObserverSubscription(CloseObserverSubscription),
    PublishRecordCaptured(PublishRecordCaptured),
    QueryStatus,
}

/// The observer's RESPONSE enum, with the universal `Unknown` floor.
#[derive(Debug, Clone, PartialEq, Eq)]
pub enum ObserverResponse {
    ObserverSubscriptionOpened(u64),
    ObserverSubscriptionRetracted(u64),
    NotificationDispatched(u32),
    StatusReturned(ObserverStatus),
    Unknown(String),
}

#[derive(Debug, Clone, PartialEq, Eq)]
pub struct OpenObserverSubscription {
    pub topic_filter: Option<String>,
}

#[derive(Debug, Clone, PartialEq, Eq)]
pub struct CloseObserverSubscription {
    pub token: u64,
}

#[derive(Debug, Clone, PartialEq, Eq)]
pub struct PublishRecordCaptured {
    pub topic: String,
    pub identifier: u64,
}

#[derive(Debug, Clone, Copy, PartialEq, Eq, Structural)]
pub struct ObserverStatus {
    pub subscribers_active: u32,
    pub notifications_dispatched: u64,
}

/// One row of the subscription table.
struct SubscriberRow {
    token: u64,
    topic_filter: Option<String>,
}

/// A subscription as the contracts see it: its token and its topic filter
/// (`None` admits every topic).
pub type SubscriptionView = (u64, Option<Seq<char>>);

pub open spec fn filter_view(filter: Option<String>) -> Option<Seq<char>> {
    match filter {
        Some(text) => Some(text@),
        None => None,
    }
}

spec fn row_view(row: SubscriberRow) -> SubscriptionView {
    (row.token, filter_view(row.topic_filter))
}

spec fn rows_view(rows: Seq<SubscriberRow>) -> Seq<SubscriptionView> {
    Seq::new(rows.len(), |i: int| row_view(rows[i]))
}

/// Whether a subscription with `filter` hears of a record on `topic`.
pub open spec fn filter_admits(filter: Option<Seq<char>>, topic: Seq<char>) -> bool {
    match filter {
        None => true,
        Some(wanted) => wanted == topic,
    }
}

/// How many subscriptions of `table` hear of a record on `topic`.
pub open spec fn matching_count(table: Seq<SubscriptionView>, topic: Seq<char>) -> nat
    decreases table.len(),
{
    if table.len() == 0 {
        0
    } else {
        matching_count(table.drop_last(), topic) + if filter_admits(table.last().1, topic) {
            1nat
        } else {
            0nat
        }
    }
}

/// A count of subscribers as the status reports it: saturated at `u32::MAX`.
pub open spec fn saturated_u32(count: nat) -> u32 {
    if count > u32::MAX {
        u32::MAX
    } else {
        count as u32
    }
}

/// A `u64` counter that wraps, as an atomic counter does.
pub open spec fn wrapping_add_u64(value: u64, amount: u64) -> u64 {
    if value + amount > u64::MAX {
        (value + amount - u64::MAX - 1) as u64
    } else {
        (value + amount) as u64
    }
}

/// The next token after `action` when it was `before`: an opened
/// subscription takes a token and moves the counter on.
pub open spec fn token_after_action(before: u64, action: ObserverAction) -> u64 {
    if action is OpenObserverSubscription {
        wrapping_add_u64(before, 1)
    } else {
        before
    }
}

/// How many of `actions` open a subscription.
pub open spec fn opens_in(actions: Seq<ObserverAction>) -> nat
    decreases actions.len(),
{
    if actions.len() == 0 {
        0
    } else {
        opens_in(actions.drop_last()) + if actions.last() is OpenObserverSubscription {
            1nat
        } else {
            0nat
        }
    }
}

/// The opens among the first `i` actions are no more than those among the
/// first `j`, and fewer when an open stands at `i` and `i < j`.
pub proof fn lemma_opens_grow(actions: Seq<ObserverAction>, i: int, j: int)
    requires
        0 <= i <= j <= actions.len(),
    ensures
        opens_in(actions.take(i)) <= opens_in(actions.take(j)),
        i < j && actions[i] is OpenObserverSubscription ==> opens_in(actions.take(i)) + 1 <= opens_in(
            actions.take(j),
        ),
    decreases j - i,
{
    if i < j {
        lemma_opens_grow(actions, i, j - 1);
        assert(actions.take(j).drop_last() =~= actions.take(j - 1));
        assert(actions.take(j).last() == actions[j - 1]);
    }
}

/// The observer engine: the next token to hand out, the subscription
/// table and the number of notifications dispatched so far.
pub struct SpiritObserver {
    next_token: u64,
    rows: Vec<SubscriberRow>,
    notifications_dispatched: u64,
}

impl SpiritObserver {
    /// The subscription table, one entry per open subscription.
    pub closed spec fn subscriptions(&self) -> Seq<SubscriptionView> {
        rows_view(self.rows@)
    }

    pub closed spec fn next_token(&self) -> u64 {
        self.next_token
    }

    pub closed spec fn notifications_dispatched(&self) -> u64 {
        self.notifications_dispatched
    }

    /// Each open subscription has a token of its own.
    pub open spec fn wf(&self) -> bool {
        distinct_keys(self.subscriptions())
    }

    pub fn new() -> (observer: Self)
        ensures
            observer.wf(),
            observer.subscriptions().len() == 0,
            observer.next_token() == 1,
            observer.notifications_dispatched() == 0,
    {
        SpiritObserver { next_token: 1, rows: Vec::new(), notifications_dispatched: 0 }
    }

    /// The match block between the observer's actions and its responses.
    pub fn handle(&mut self, action: ObserverAction) -> (response: ObserverResponse)
        requires
            old(self).wf(),
        ensures
            final(self).wf(),
            final(self).next_token() == token_after_action(old(self).next_token(), action),
            match action {
                ObserverAction::OpenObserverSubscription(open) => {
                    &&& response == ObserverResponse::ObserverSubscriptionOpened(
                        old(self).next_token(),
                    )
                    &&& final(self).subscriptions() == without_key(
                        old(self).subscriptions(),
                        old(self).next_token(),
                    ).push((old(self).next_token(), filter_view(open.topic_filter)))
                    &&& final(self).next_token() == wrapping_add_u64(old(self).next_token(), 1)
                    &&& final(self).notifications_dispatched() == old(
                        self,
                    ).notifications_dispatched()
                },
                ObserverAction::CloseObserverSubscription(close) => {
                    &&& response == ObserverResponse::ObserverSubscriptionRetracted(close.token)
                    &&& final(self).subscriptions() == without_key(
                        old(self).subscriptions(),
                        close.token,
                    )
                    &&& final(self).next_token() == old(self).next_token()
                    &&& final(self).notifications_dispatched() == old(
                        self,
                    ).notifications_dispatched()
                },
                ObserverAction::PublishRecordCaptured(publish) => {
                    let count = saturated_u32(
                        matching_count(old(self).subscriptions(), publish.topic@),
                    );
                    &&& response == ObserverResponse::NotificationDispatched(count)
                    &&& final(self).subscriptions() == old(self).subscriptions()
                    &&& final(self).next_token() == old(self).next_token()
                    &&& final(self).notifications_dispatched() == wrapping_add_u64(
                        old(self).notifications_dispatched(),
                        count as u64,
                    )
                },
                ObserverAction::QueryStatus => {
                    &&& response == ObserverResponse::StatusReturned(
                        ObserverStatus {
                            subscribers_active: saturated_u32(old(self).subscriptions().len()),
                            notifications_dispatched: old(self).notifications_dispatched(),
                        },
                    )
                    &&& final(self).subscriptions() == old(self).subscriptions()
                    &&& final(self).next_token() == old(self).next_token()
                    &&& final(self).notifications_dispatched() == old(
                        self,
                    ).notifications_dispatched()
                },
            },
    {
        match action {
            ObserverAction::OpenObserverSubscription(open) => self.handle_open(open),
            ObserverAction::CloseObserverSubscription(close) => self.handle_close(close),
            ObserverAction::PublishRecordCaptured(publish) => self.handle_publish(publish),
            ObserverAction::QueryStatus => self.handle_status(),
        }
    }

    /// Drops the row with `token`, if there is one.
    fn remove_token(&mut self, token: u64)
        requires
            old(self).wf(),
        ensures
            final(self).wf(),
            final(self).subscriptions() == without_key(old(self).subscriptions(), token),
            !has_key(final(self).subscriptions(), token),
            final(self).next_token == old(self).next_token,
            final(self).notifications_dispatched == old(self).notifications_dispatched,
    {
        let ghost before = rows_view(self.rows@);
        proof {
            lemma_without_key_distinct(before, token);
        }
        let mut index: usize = 0;
        while index < self.rows.len()
            invariant
                index <= self.rows.len(),
                before == rows_view(self.rows@),
                before == old(self).subscriptions(),
                distinct_keys(before),
                distinct_keys(without_key(before, token)),
                !has_key(without_key(before, token), token),
                self.next_token == old(self).next_token,
                self.notifications_dispatched == old(self).notifications_dispatched,
                forall|k: int| 0 <= k < index ==> #[trigger] before[k].0 != token,
            decreases self.rows.len() - index,
        {
            if self.rows[index].token == token {
                proof {
                    lemma_without_key_at(before, token, index as int);
                }
                self.rows.remove(index);
                proof {
                    assert(rows_view(self.rows@) =~= before.remove(index as int));
                }
                return;
            }
            index = index + 1;
        }
        proof {
            assert(!has_key(before, token));
            lemma_without_key_absent(before, token);
        }
    }

    fn handle_open(&mut self, open: OpenObserverSubscription) -> (response: ObserverResponse)
        requires
            old(self).wf(),
        ensures
            final(self).wf(),
            response == ObserverResponse::ObserverSubscriptionOpened(old(self).next_token()),
            final(self).subscriptions() == without_key(
                old(self).subscriptions(),
                old(self).next_token(),
            ).push((old(self).next_token(), filter_view(open.topic_filter))),
            final(self).next_token() == wrapping_add_u64(old(self).next_token(), 1),
            final(self).notifications_dispatched() == old(self).notifications_dispatched(),
    {
        let token = self.next_token;
        self.next_token = if token == u64::MAX {
            0
        } else {
            token + 1
        };
        self.remove_token(token);
        let ghost before = rows_view(self.rows@);
        self.rows.push(SubscriberRow { token, topic_filter: open.topic_filter });
        proof {
            let after = rows_view(self.rows@);
            assert(after =~= before.push((token, filter_view(open.topic_filter))));
            assert forall|i: int, j: int|
                0 <= i < after.len() && 0 <= j < after.len() && i != j implies #[trigger] after[i].0
                != #[trigger] after[j].0 by {
                if i < before.len() && j < before.len() {
                    assert(before[i].0 != before[j].0);
                } else if i < before.len() {
                    assert(before[i].0 == after[i].0);
                } else {
                    assert(before[j].0 == after[j].0);
                }
            }
        }
        ObserverResponse::ObserverSubscriptionOpened(token)
    }

    fn handle_close(&mut self, close: CloseObserverSubscription) -> (response: ObserverResponse)
        requires
            old(self).wf(),
        ensures
            final(self).wf(),
            response == ObserverResponse::ObserverSubscriptionRetracted(close.token),
            final(self).subscriptions() == without_key(old(self).subscriptions(), close.token),
            final(self).next_token() == old(self).next_token(),
            final(self).notifications_dispatched() == old(self).notifications_dispatched(),
    {
        self.remove_token(close.token);
        ObserverResponse::ObserverSubscriptionRetracted(close.token)
    }

    fn handle_publish(&mut self, publish: PublishRecordCaptured) -> (response: ObserverResponse)
        requires
            old(self).wf(),
        ensures
            final(self).wf(),
            response == ObserverResponse::NotificationDispatched(
                saturated_u32(matching_count(old(self).subscriptions(), publish.topic@)),
            ),
            final(self).subscriptions() == old(self).subscriptions(),
            final(self).next_token() == old(self).next_token(),
            final(self).notifications_dispatched() == wrapping_add_u64(
                old(self).notifications_dispatched(),
                saturated_u32(matching_count(old(self).subscriptions(), publish.topic@)) as u64,
            ),
    {
        let ghost table = rows_view(self.rows@);
        let mut dispatched: u32 = 0;
        let mut index: usize = 0;
        while index < self.rows.len()
            invariant
                index <= self.rows.len(),
                table == rows_view(self.rows@),
                dispatched == saturated_u32(matching_count(table.take(index as int), publish.topic@)),
            decreases self.rows.len() - index,
        {
            proof {
                assert(table.take(index as int + 1).drop_last() =~= table.take(index as int));
            }
            let admits = match &self.rows[index].topic_filter {
                None => true,
                Some(filter) => *filter == publish.topic,
            };
            if admits && dispatched < u32::MAX {
                dispatched = dispatched + 1;
            }
            index = index + 1;
        }
        proof {
            assert(table.take(index as int) =~= table);
        }
        let amount: u64 = dispatched as u64;
        self.notifications_dispatched = if self.notifications_dispatched > u64::MAX - amount {
            amount - (u64::MAX - self.notifications_dispatched) - 1
        } else {
            self.notifications_dispatched + amount
        };
        ObserverResponse::NotificationDispatched(dispatched)
    }

    fn handle_status(&self) -> (response: ObserverResponse)
        ensures
            response == ObserverResponse::StatusReturned(
                ObserverStatus {
                    subscribers_active: saturated_u32(self.subscriptions().len()),
                    notifications_dispatched: self.notifications_dispatched(),
                },
            ),
    {
        let count: usize = self.rows.len();
        let subscribers_active: u32 = if count > 4294967295usize {
            u32::MAX
        } else {
            count as u32
        };
        ObserverResponse::StatusReturned(
            ObserverStatus {
                subscribers_active,
                notifications_dispatched: self.notifications_dispatched,
            },
        )
    }
}

/// Opening a subscription and then closing the token it was given leaves
/// the table as it was without that token, and exactly as it was when the
/// token was fresh.
pub proof fn law_open_then_close_round_trips(
    table: Seq<SubscriptionView>,
    token: u64,
    filter: Option<Seq<char>>,
)
    ensures
        without_key(without_key(table, token).push((token, filter)), token) == without_key(
            table,
            token,
        ),
        !has_key(table, token) ==> without_key(without_key(table, token).push((token, filter)), token)
            == table,
{
    lemma_put_then_drop(table, token, filter);
    if !has_key(table, token) {
        lemma_without_key_absent(table, token);
    }
}

/// A subscription without a filter hears of every record; one with a
/// filter hears only of records on its topic.
pub proof fn law_wildcards_hear_everything(filter: Option<Seq<char>>, topic: Seq<char>)
    ensures
        filter is None ==> filter_admits(filter, topic),
        filter_admits(filter, topic) == (filter is None || filter == Some(topic)),
{
}

/// Tokens count up: an observer that hands out 1 first hands out 1, 2,
/// 3, ... to the subscriptions opened after it, whatever else arrives in
/// between, so no two opened subscriptions share a token (while the count
/// of opens stays below `u64::MAX`).
pub proof fn law_tokens_count_up(
    observers: Seq<SpiritObserver>,
    actions: Seq<ObserverAction>,
    responses: Seq<ObserverResponse>,
)
    requires
        observers.len() == actions.len() + 1,
        responses.len() == actions.len(),
        observers[0].next_token() == 1,
        opens_in(actions) < u64::MAX,
        forall|i: int|
            0 <= i < actions.len() ==> #[trigger] observers[i + 1].next_token() == token_after_action(
                observers[i].next_token(),
                actions[i],
            ),
        forall|i: int|
            0 <= i < actions.len() && actions[i] is OpenObserverSubscription ==> #[trigger] responses[i]
                == ObserverResponse::ObserverSubscriptionOpened(observers[i].next_token()),
    ensures
        forall|i: int|
            0 <= i < observers.len() ==> #[trigger] observers[i].next_token() == opens_in(
                actions.take(i),
            ) + 1,
        forall|i: int|
            0 <= i < actions.len() && actions[i] is OpenObserverSubscription ==> #[trigger] responses[i]
                == ObserverResponse::ObserverSubscriptionOpened((opens_in(actions.take(i)) + 1) as u64),
        forall|i: int, j: int|
            0 <= i < j < actions.len() && actions[i] is OpenObserverSubscription
                && actions[j] is OpenObserverSubscription ==> #[trigger] responses[i]
                != #[trigger] responses[j],
{
    assert forall|i: int| 0 <= i < observers.len() implies #[trigger] observers[i].next_token()
        == opens_in(actions.take(i)) + 1 by {
        lemma_tokens_prefix(observers, actions, i);
    }
    assert forall|i: int, j: int|
        0 <= i < j < actions.len() && actions[i] is OpenObserverSubscription
            && actions[j] is OpenObserverSubscription implies #[trigger] responses[i]
            != #[trigger] responses[j] by {
        lemma_opens_grow(actions, i, j);
        lemma_tokens_prefix(observers, actions, i);
        lemma_tokens_prefix(observers, actions, j);
    }
}

/// The token count after the first `i` actions of a run from token 1.
proof fn lemma_tokens_prefix(observers: Seq<SpiritObserver>, actions: Seq<ObserverAction>, i: int)
    requires
        observers.len() == actions.len() + 1,
        observers[0].next_token() == 1,
        opens_in(actions) < u64::MAX,
        forall|k: int|
            0 <= k < actions.len() ==> #[trigger] observers[k + 1].next_token() == token_after_action(
                observers[k].next_token(),
                actions[k],
            ),
        0 <= i < observers.len(),
    ensures
        observers[i].next_token() == opens_in(actions.take(i)) + 1,
    decreases i,
{
    if i > 0 {
        lemma_tokens_prefix(observers, actions, i - 1);
        lemma_opens_grow(actions, i, actions.len() as int);
        assert(actions.take(actions.len() as int) =~= actions);
        assert(actions.take(i).drop_last() =~= actions.take(i - 1));
        assert(actions.take(i).last() == actions[i - 1]);
        let k = i - 1;
        assert(observers[k + 1].next_token() == token_after_action(
            observers[k].next_token(),
            actions[k],
        ));
    }
}

} // verus!
