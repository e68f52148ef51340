//! Commands that were carried out, and the events that are to be published.

use vstd::prelude::*;

use crate::domain::{EventId, EventStreamKey, IdempotencyKey, PrincipalId, PublishKind};
use crate::errors::{
    conflict, conflict_error, not_found, not_found_error, outcome, ErrorView, KernelError,
};
use crate::store::rows::{
    idempotency_record_row, make_idempotency_record, make_outbox_event, outbox_event_row,
    IdempotencyRecordRow, NewIdempotencyRecord, NewOutboxEvent, OutboxEventRow,
};
use crate::store::runs::{bump, next_number};
use crate::store::state::{MockState, StoreModel};
use crate::store::table::{added, insert_unique, picked_at, selects, Row};
use crate::text::{
    less, same_text, text_less, text_less_irreflexive, text_less_transitive,
};

verus! {

// ---------------------------------------------------------------------------
// Commands
// ---------------------------------------------------------------------------

/// The store after a command was recorded, and what that returns.
pub open spec fn idempotency_added(m: StoreModel, new: NewIdempotencyRecord) -> (StoreModel, Result<(), ErrorView>) {
    let a = added(
        m.idempotency,
        (new.principal_id, new.idempotency_key.text@),
        idempotency_record_row(new),
        "idempotency key already recorded"@,
    );
    (StoreModel { idempotency: a.0, ..m }, a.1)
}

impl MockState {
    /// The command of a principal with the given key.
    pub fn lookup_idempotency(&self, principal: PrincipalId, key: &IdempotencyKey) -> (r: Option<
        &IdempotencyRecordRow,
    >)
        ensures
            match r {
                Some(row) => self@.idempotency.contains_key((principal, key.text@))
                    && self@.idempotency[(principal, key.text@)] == *row,
                None => !self@.idempotency.contains_key((principal, key.text@)),
            },
    {
        self.idempotency.get(&(principal, key.clone()))
    }

    /// Records a command.
    pub fn insert_idempotency(&mut self, new: NewIdempotencyRecord) -> (r: Result<(), KernelError>)
        ensures
            (final(self)@, outcome(r)) == idempotency_added(old(self)@, new),
    {
        let key = (new.principal_id, new.idempotency_key.clone());
        let row = make_idempotency_record(new);
        insert_unique(&mut self.idempotency, key, row, "idempotency key already recorded")
    }
}

// ---------------------------------------------------------------------------
// Events
// ---------------------------------------------------------------------------

/// The number of the newest event of a stream.
pub open spec fn stream_head(m: StoreModel, stream: Seq<char>) -> u64 {
    if m.stream_heads.contains_key(stream) {
        m.stream_heads[stream]
    } else {
        0
    }
}

/// The store after the next number of a stream was given out, and that number.
pub open spec fn number_allocated(m: StoreModel, stream: Seq<char>) -> (StoreModel, u64) {
    let n = next_number(stream_head(m, stream));
    (StoreModel { stream_heads: m.stream_heads.insert(stream, n), ..m }, n)
}

/// The store after an event was recorded, and what that returns: a number of a
/// stream is used once.
pub open spec fn event_added(m: StoreModel, new: NewOutboxEvent) -> (StoreModel, Result<(), ErrorView>) {
    let place = (new.stream_key.text@, new.sequence);
    if m.outbox.contains_key(new.event_id) {
        (m, Err(conflict("duplicate outbox event id"@)))
    } else if m.outbox_sequences.contains_key(place) {
        (m, Err(conflict("duplicate stream sequence"@)))
    } else {
        (
            StoreModel {
                outbox: m.outbox.insert(new.event_id, outbox_event_row(new)),
                outbox_sequences: m.outbox_sequences.insert(place, new.sequence),
                ..m
            },
            Ok(()),
        )
    }
}

/// `t + 1`, at most the greatest `i64`.
pub open spec fn next_tick(t: i64) -> i64 {
    if t == i64::MAX {
        t
    } else {
        (t + 1) as i64
    }
}

/// The store after an event was marked as published, and what that returns: the
/// store's time moves on either way.
pub open spec fn event_published(m: StoreModel, id: EventId, kind: PublishKind) -> (StoreModel, Result<(), ErrorView>) {
    let now = next_tick(m.logical_now_ms);
    let later = StoreModel { logical_now_ms: now, ..m };
    if !m.outbox.contains_key(id) {
        (later, Err(not_found("outbox event not found"@)))
    } else {
        let row = m.outbox[id];
        let marked = match kind {
            PublishKind::Journal => OutboxEventRow { journal_published_at_ms: Some(now), ..row },
            PublishKind::Live => OutboxEventRow { live_published_at_ms: Some(now), ..row },
        };
        (StoreModel { outbox: m.outbox.insert(id, marked), ..later }, Ok(()))
    }
}

/// The events that the journal does not have yet.
pub open spec fn is_unpublished() -> spec_fn(OutboxEventRow) -> bool {
    |row: OutboxEventRow| row.journal_published_at_ms is None
}

/// Whether an event stands before another one: by the stream, and then by the
/// number.
pub open spec fn event_before(a: OutboxEventRow, b: OutboxEventRow) -> bool {
    if a.stream_key.text@ != b.stream_key.text@ {
        text_less(a.stream_key.text@, b.stream_key.text@)
    } else {
        a.sequence < b.sequence
    }
}

/// Events by the stream, and then by the number.
pub open spec fn event_order() -> spec_fn(OutboxEventRow, OutboxEventRow) -> bool {
    |a: OutboxEventRow, b: OutboxEventRow| event_before(a, b)
}

/// Whether `rows` are the first events, at most `limit`, that the journal does not
/// have yet.
pub open spec fn scans(rows: Seq<OutboxEventRow>, m: StoreModel, limit: u32) -> bool {
    exists|all: Seq<OutboxEventRow>| #[trigger]
        selects(all, m.outbox, is_unpublished(), event_order()) && rows == (if all.len() <= limit {
            all
        } else {
            all.take(limit as int)
        })
}

proof fn events_are_ordered()
    ensures
        forall|a: OutboxEventRow| !(#[trigger] event_before(a, a)),
        forall|a: OutboxEventRow, b: OutboxEventRow, c: OutboxEventRow|
            #[trigger] event_before(a, b) && #[trigger] event_before(b, c) ==> event_before(a, c),
{
    assert forall|a: OutboxEventRow, b: OutboxEventRow, c: OutboxEventRow|
        #[trigger] event_before(a, b) && #[trigger] event_before(b, c) implies event_before(a, c) by {
        if a.stream_key.text@ != b.stream_key.text@ && b.stream_key.text@ != c.stream_key.text@ {
            text_less_transitive(a.stream_key.text@, b.stream_key.text@, c.stream_key.text@);
            text_less_irreflexive(a.stream_key.text@);
        }
    }
}

impl MockState {
    /// Gives out the next number of a stream.
    pub fn allocate(&mut self, stream_key: EventStreamKey) -> (r: u64)
        ensures
            (final(self)@, r) == number_allocated(old(self)@, stream_key.text@),
    {
        let head: u64 = match self.stream_heads.get(&stream_key) {
            Some(n) => *n,
            None => 0,
        };
        let n: u64 = bump(head);
        self.stream_heads.put(stream_key, n);
        n
    }

    /// Records an event.
    pub fn insert_outbox(&mut self, new: NewOutboxEvent) -> (r: Result<(), KernelError>)
        ensures
            (final(self)@, outcome(r)) == event_added(old(self)@, new),
    {
        if self.outbox.contains(&new.event_id) {
            return Err(conflict_error("duplicate outbox event id"));
        }
        let place = (new.stream_key.clone(), new.sequence);
        if self.outbox_sequences.contains(&place) {
            return Err(conflict_error("duplicate stream sequence"));
        }
        let sequence: u64 = new.sequence;
        self.outbox_sequences.put(place, sequence);
        let id = new.event_id;
        let row = make_outbox_event(new);
        self.outbox.put(id, row);
        Ok(())
    }

    /// The first events, at most `limit`, that the journal does not have yet.
    pub fn scan_unpublished(&self, limit: u32) -> (r: Vec<OutboxEventRow>)
        ensures
            scans(r@, self@, limit),
    {
        let test = |row: &OutboxEventRow| -> (b: bool)
            ensures
                b == (row.journal_published_at_ms is None),
            { row.journal_published_at_ms.is_none() };
        let before = |a: &OutboxEventRow, b: &OutboxEventRow| -> (c: bool)
            ensures
                c == event_before(*a, *b),
            {
                if same_text(a.stream_key.text.as_str(), b.stream_key.text.as_str()) {
                    a.sequence < b.sequence
                } else {
                    less(a.stream_key.text.as_str(), b.stream_key.text.as_str())
                }
            };
        proof {
            events_are_ordered();
        }
        let mut rows = self.outbox.select(
            test,
            before,
            Ghost(is_unpublished()),
            Ghost(event_order()),
        );
        let ghost all = rows@;
        if rows.len() > limit as usize {
            rows.truncate(limit as usize);
            assert(rows@ =~= all.take(limit as int));
        }
        assert(selects(all, self@.outbox, is_unpublished(), event_order()));
        rows
    }

    /// Marks an event as published.
    pub fn mark_published(&mut self, id: EventId, kind: PublishKind) -> (r: Result<(), KernelError>)
        ensures
            (final(self)@, outcome(r)) == event_published(old(self)@, id, kind),
    {
        let now: i64 = if self.logical_now_ms == i64::MAX {
            i64::MAX
        } else {
            self.logical_now_ms + 1
        };
        self.logical_now_ms = now;
        let mut row = match self.outbox.get(&id) {
            Some(row) => row.copy_row(),
            None => return Err(not_found_error("outbox event not found")),
        };
        match kind {
            PublishKind::Journal => {
                row.journal_published_at_ms = Some(now);
            },
            PublishKind::Live => {
                row.live_published_at_ms = Some(now);
            },
        }
        self.outbox.put(id, row);
        Ok(())
    }
}

// ---------------------------------------------------------------------------
// What holds of every stream
// ---------------------------------------------------------------------------

/// The numbers of a stream come one after the other: each number is one greater
/// than the one before, and the numbers of other streams stay.
pub proof fn numbers_are_contiguous(m: StoreModel, stream: Seq<char>, other: Seq<char>)
    requires
        stream_head(m, stream) < u64::MAX,
        other != stream,
    ensures
        number_allocated(m, stream).1 == stream_head(m, stream) + 1,
        stream_head(number_allocated(m, stream).0, stream) == number_allocated(m, stream).1,
        stream_head(number_allocated(m, stream).0, other) == stream_head(m, other),
{
}

/// A command that was recorded is found again, and its key is not recorded twice.
pub proof fn commands_are_recorded_once(m: StoreModel, new: NewIdempotencyRecord, again: NewIdempotencyRecord)
    requires
        idempotency_added(m, new).1 is Ok,
        again.principal_id == new.principal_id,
        again.idempotency_key.text@ == new.idempotency_key.text@,
    ensures
        ({
            let after = idempotency_added(m, new).0;
            let key = (new.principal_id, new.idempotency_key.text@);
            &&& after.idempotency.contains_key(key)
            &&& after.idempotency[key] == idempotency_record_row(new)
            &&& idempotency_added(after, again) == (
                after,
                Err::<(), ErrorView>(conflict("idempotency key already recorded"@)),
            )
        }),
{
}

/// A scan that is not full tells every event that is not in the journal yet.
pub proof fn short_scans_are_whole(m: StoreModel, rows: Seq<OutboxEventRow>, limit: u32, id: EventId)
    requires
        scans(rows, m, limit),
        rows.len() < limit,
        m.outbox.contains_key(id),
        m.outbox[id].journal_published_at_ms is None,
    ensures
        rows.contains(m.outbox[id]),
{
    let all = choose|all: Seq<OutboxEventRow>| #[trigger]
        selects(all, m.outbox, is_unpublished(), event_order()) && rows == (if all.len() <= limit {
            all
        } else {
            all.take(limit as int)
        });
    assert(rows == all);
    let keys = choose|keys: Seq<EventId>| picked_at(all, keys, m.outbox, is_unpublished());
    assert(is_unpublished()(m.outbox[id]));
    assert(keys.contains(id));
    let i = choose|i: int| 0 <= i < keys.len() && keys[i] == id;
    assert(rows[i] == m.outbox[id]);
}

/// A recorded event waits for the journal until it is marked, and no mark of another
/// event or of live delivery ends that.
pub proof fn events_wait_for_the_journal(m: StoreModel, new: NewOutboxEvent, other: EventId, kind: PublishKind)
    requires
        event_added(m, new).1 is Ok,
    ensures
        ({
            let after = event_added(m, new).0;
            let marked = event_published(after, other, kind).0;
            &&& after.outbox[new.event_id].journal_published_at_ms is None
            &&& marked.outbox[new.event_id].journal_published_at_ms is None <==> !(other
                == new.event_id && kind == PublishKind::Journal)
        }),
{
}

} // verus!
