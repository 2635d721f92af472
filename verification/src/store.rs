use vstd::prelude::*;
use crate::error::Error;

verus! {

/// One persisted message-board entry.
#[derive(Debug)]
pub struct Message {
    pub username: String,
    pub message: String,
    pub timestamp: i64,
}

impl Clone for Message {
    fn clone(&self) -> (r: Self)
        ensures
            r == *self,
    {
        Message { username: self.username.clone(), message: self.message.clone(), timestamp: self.timestamp }
    }
}

/// A message as handed in by a client, before the store assigns a timestamp.
#[derive(Debug)]
pub struct NewMessage {
    pub username: String,
    pub message: String,
}

/// Optional strict bounds on the timestamps a read should return: a row is kept
/// when its timestamp is strictly below `before` and strictly above `after`.
#[derive(Debug)]
pub struct TimeRange {
    pub before: Option<i64>,
    pub after: Option<i64>,
}

/// Whether a timestamp lies inside the (strict) window that `range` describes.
pub open spec fn in_range(ts: int, range: TimeRange) -> bool {
    (match range.before {
        Some(b) => ts < b,
        None => true,
    }) && (match range.after {
        Some(a) => ts > a,
        None => true,
    })
}

/// The rows of `rows` whose timestamps lie inside `range`, keeping their order.
pub open spec fn filter_range(rows: Seq<Message>, range: TimeRange) -> Seq<Message>
    decreases rows.len(),
{
    if rows.len() == 0 {
        Seq::empty()
    } else {
        let init = filter_range(rows.drop_last(), range);
        if in_range(rows.last().timestamp as int, range) {
            init.push(rows.last())
        } else {
            init
        }
    }
}

/// A row appears in a filtered read exactly when it is persisted and its
/// timestamp lies inside the window.
pub proof fn lemma_filter_range_membership(rows: Seq<Message>, range: TimeRange)
    ensures
        forall|m: Message|
            #[trigger] filter_range(rows, range).contains(m) <==> rows.contains(m) && in_range(
                m.timestamp as int,
                range,
            ),
    decreases rows.len(),
{
    if rows.len() > 0 {
        let filtered = filter_range(rows, range);
        let init = filter_range(rows.drop_last(), range);
        lemma_filter_range_membership(rows.drop_last(), range);
        assert forall|m: Message| #[trigger] filtered.contains(m) implies rows.contains(m)
            && in_range(m.timestamp as int, range) by {
            let i = choose|i: int| 0 <= i < filtered.len() && filtered[i] == m;
            if i < init.len() {
                assert(init[i] == m);
                assert(init.contains(m));
                let j = choose|j: int|
                    0 <= j < rows.drop_last().len() && rows.drop_last()[j] == m;
                assert(rows[j] == m);
            } else {
                assert(m == rows.last());
                assert(rows[rows.len() - 1] == m);
            }
        }
        assert forall|m: Message| rows.contains(m) && in_range(m.timestamp as int, range)
            implies #[trigger] filtered.contains(m) by {
            let i = choose|i: int| 0 <= i < rows.len() && rows[i] == m;
            if i < rows.len() - 1 {
                assert(rows.drop_last()[i] == m);
                assert(rows.drop_last().contains(m));
                assert(init.contains(m));
                let j = choose|j: int| 0 <= j < init.len() && init[j] == m;
                assert(filtered[j] == m);
            } else {
                assert(m == rows.last());
                assert(filtered[init.len() as int] == m);
            }
        }
    }
}

/// A read with no bounds returns every persisted row.
pub proof fn lemma_filter_range_no_bounds(rows: Seq<Message>, range: TimeRange)
    requires
        range.before is None,
        range.after is None,
    ensures
        filter_range(rows, range) == rows,
    decreases rows.len(),
{
    if rows.len() > 0 {
        lemma_filter_range_no_bounds(rows.drop_last(), range);
        assert(filter_range(rows, range) =~= rows);
    }
}

/// A read bounded on both sides returns exactly the rows that both one-sided
/// reads return.
pub proof fn lemma_filter_range_intersection(rows: Seq<Message>, b: i64, a: i64)
    ensures
        forall|m: Message|
            filter_range(rows, (TimeRange { before: Some(b), after: Some(a) })).contains(m)
                <==> filter_range(rows, (TimeRange { before: Some(b), after: None })).contains(m)
                && filter_range(rows, (TimeRange { before: None, after: Some(a) })).contains(m),
{
    lemma_filter_range_membership(rows, TimeRange { before: Some(b), after: Some(a) });
    lemma_filter_range_membership(rows, TimeRange { before: Some(b), after: None });
    lemma_filter_range_membership(rows, TimeRange { before: None, after: Some(a) });
}

/// The single table of persisted messages, with the server-assigned timestamp
/// sequence. Timestamps are assigned once, at insertion, and grow strictly.
#[derive(Debug)]
pub struct MessageStore {
    pub rows: Vec<Message>,
    pub next_timestamp: i64,
}

impl MessageStore {
    /// Every persisted timestamp is below the next one to be assigned, and the
    /// rows carry strictly increasing timestamps in insertion order.
    pub open spec fn wf(&self) -> bool {
        &&& forall|i: int|
            0 <= i < self.rows@.len() ==> self.rows@[i].timestamp < self.next_timestamp
        &&& forall|i: int, j: int|
            0 <= i < j < self.rows@.len() ==> self.rows@[i].timestamp < self.rows@[j].timestamp
    }

    /// An empty store whose first assigned timestamp will be `first_timestamp`.
    pub fn starting_at(first_timestamp: i64) -> (r: Self)
        ensures
            r.wf(),
            r.rows@.len() == 0,
            r.next_timestamp == first_timestamp,
    {
        MessageStore { rows: Vec::new(), next_timestamp: first_timestamp }
    }

    /// An empty store; timestamps start at 1.
    pub fn new() -> (r: Self)
        ensures
            r.wf(),
            r.rows@.len() == 0,
            r.next_timestamp == 1,
    {
        Self::starting_at(1)
    }

    /// Persists one row carrying `new_message` and the next timestamp, and
    /// returns that timestamp. Fails, changing nothing, exactly when the
    /// timestamp sequence is exhausted.
    pub fn insert(&mut self, new_message: NewMessage) -> (result: Result<i64, Error>)
        requires
            old(self).wf(),
        ensures
            final(self).wf(),
            result is Err <==> old(self).next_timestamp == i64::MAX,
            match result {
                Ok(ts) => {
                    &&& ts == old(self).next_timestamp
                    &&& final(self).rows@ == old(self).rows@.push(
                        Message {
                            username: new_message.username,
                            message: new_message.message,
                            timestamp: old(self).next_timestamp,
                        },
                    )
                    &&& final(self).next_timestamp == old(self).next_timestamp + 1
                },
                Err(e) => *final(self) == *old(self) && e is StorageWriteFailure,
            },
    {
        if self.next_timestamp == i64::MAX {
            Err(Error::StorageWriteFailure)
        } else {
            let ts = self.next_timestamp;
            self.rows.push(
                Message { username: new_message.username, message: new_message.message, timestamp: ts },
            );
            self.next_timestamp = ts + 1;
            Ok(ts)
        }
    }

    /// Returns the persisted rows whose timestamps lie inside `range`, in
    /// insertion order. The store is not changed.
    pub fn query(&self, range: &TimeRange) -> (result: Vec<Message>)
        ensures
            result@ == filter_range(self.rows@, *range),
    {
        let mut result: Vec<Message> = Vec::new();
        let n = self.rows.len();
        for i in 0..n
            invariant
                n == self.rows@.len(),
                result@ == filter_range(self.rows@.take(i as int), *range),
        {
            proof {
                assert(self.rows@.take(i + 1).drop_last() =~= self.rows@.take(i as int));
                assert(self.rows@.take(i + 1).last() == self.rows@[i as int]);
            }
            let keep = match range.before {
                Some(b) => self.rows[i].timestamp < b,
                None => true,
            } && match range.after {
                Some(a) => self.rows[i].timestamp > a,
                None => true,
            };
            if keep {
                result.push(self.rows[i].clone());
            }
        }
        proof {
            assert(self.rows@.take(n as int) =~= self.rows@);
        }
        result
    }
}

} // verus!
