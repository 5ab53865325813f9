//! The log of session events: each event gets the next sequence number, the
//! newest thousand are kept, and a window asks for those after the last
//! sequence number it has seen.
use vstd::prelude::*;
use crate::json::{JsonData, JsonValue};
use crate::session::SessionKind;
use crate::text::owned;
use std::collections::VecDeque;

verus! {

/// How many events the log keeps; the oldest go first.
pub const MAX_STORED_EVENTS: usize = 1000;

/// An event as kept in the log.
#[derive(Debug)]
pub struct StoredSessionEvent {
    pub sequence: u64,
    pub event_type: String,
    pub session_kind: SessionKind,
    pub session_id: String,
    pub payload: JsonValue,
}

/// A kept event with its texts as sequences and its payload as data.
pub struct StoredEventView {
    pub sequence: u64,
    pub event_type: Seq<char>,
    pub session_kind: SessionKind,
    pub session_id: Seq<char>,
    pub payload: JsonData,
}

impl View for StoredSessionEvent {
    type V = StoredEventView;

    open spec fn view(&self) -> StoredEventView {
        StoredEventView {
            sequence: self.sequence,
            event_type: self.event_type@,
            session_kind: self.session_kind,
            session_id: self.session_id@,
            payload: self.payload.data(),
        }
    }
}

impl StoredSessionEvent {
    /// A copy.
    pub fn duplicate(&self) -> (r: StoredSessionEvent)
        ensures
            r@ == self@,
    {
        StoredSessionEvent {
            sequence: self.sequence,
            event_type: self.event_type.clone(),
            session_kind: self.session_kind,
            session_id: self.session_id.clone(),
            payload: self.payload.deep_clone(),
        }
    }
}

pub open spec fn event_views(v: Seq<StoredSessionEvent>) -> Seq<StoredEventView> {
    v.map_values(|e: StoredSessionEvent| e@)
}

/// Sequence numbers rise from the oldest event to the newest.
pub open spec fn increasing(s: Seq<StoredEventView>) -> bool {
    forall|i: int, j: int| 0 <= i < j < s.len() ==> #[trigger] s[i].sequence < #[trigger] s[j].sequence
}

/// No event has a sequence number above `last`.
pub open spec fn all_at_most(s: Seq<StoredEventView>, last: u64) -> bool {
    forall|i: int| 0 <= i < s.len() ==> #[trigger] s[i].sequence <= last
}

/// Every event has a sequence number from 1 on.
pub open spec fn all_numbered(s: Seq<StoredEventView>) -> bool {
    forall|i: int| 0 <= i < s.len() ==> #[trigger] s[i].sequence > 0
}

/// The events with a sequence number above `after`, in order.
pub open spec fn newer_than(s: Seq<StoredEventView>, after: u64) -> Seq<StoredEventView>
    decreases s.len(),
{
    if s.len() == 0 {
        Seq::empty()
    } else if s.last().sequence > after {
        newer_than(s.drop_last(), after).push(s.last())
    } else {
        newer_than(s.drop_last(), after)
    }
}

/// The kept events after `e` is added: the oldest is dropped once more than
/// the limit would be kept.
pub open spec fn stored_after(s: Seq<StoredEventView>, e: StoredEventView) -> Seq<StoredEventView> {
    if s.len() + 1 > MAX_STORED_EVENTS {
        s.push(e).drop_first()
    } else {
        s.push(e)
    }
}

/// Session events, newest last, with the number of the last one recorded.
pub struct SessionEventLog {
    last_sequence: u64,
    events: VecDeque<StoredSessionEvent>,
}

impl SessionEventLog {
    /// The kept events, oldest first.
    pub closed spec fn kept(&self) -> Seq<StoredEventView> {
        event_views(self.events@)
    }

    /// The sequence number of the last event recorded (0 before any).
    pub closed spec fn last(&self) -> u64 {
        self.last_sequence
    }

    /// At most the limit is kept, in rising order, none above the last
    /// number given out.
    pub open spec fn well_formed(&self) -> bool {
        &&& self.kept().len() <= MAX_STORED_EVENTS
        &&& increasing(self.kept())
        &&& all_at_most(self.kept(), self.last())
        &&& all_numbered(self.kept())
    }

    /// An empty log.
    pub fn new() -> (r: SessionEventLog)
        ensures
            r.well_formed(),
            r.kept() == Seq::<StoredEventView>::empty(),
            r.last() == 0,
    {
        let r = SessionEventLog { last_sequence: 0, events: VecDeque::new() };
        assert(r.kept() =~= Seq::<StoredEventView>::empty());
        r
    }

    /// The sequence number of the last event recorded.
    pub fn last_sequence(&self) -> (r: u64)
        ensures
            r == self.last(),
    {
        self.last_sequence
    }

    /// Records an event under the next sequence number and returns that
    /// number.
    pub fn record(
        &mut self,
        event_type: &str,
        session_kind: SessionKind,
        session_id: &str,
        payload: JsonValue,
    ) -> (sequence: u64)
        requires
            old(self).well_formed(),
            old(self).last() < u64::MAX,
        ensures
            sequence == old(self).last() + 1,
            final(self).last() == sequence,
            final(self).well_formed(),
            final(self).kept() == stored_after(
                old(self).kept(),
                StoredEventView {
                    sequence,
                    event_type: event_type@,
                    session_kind,
                    session_id: session_id@,
                    payload: payload.data(),
                },
            ),
    {
        let ghost before = self.kept();
        let sequence = self.last_sequence + 1;
        let event = StoredSessionEvent {
            sequence,
            event_type: owned(event_type),
            session_kind,
            session_id: owned(session_id),
            payload,
        };
        let ghost e = event@;
        self.last_sequence = sequence;
        self.events.push_back(event);
        proof {
            assert(self.kept() =~= before.push(e));
        }
        if self.events.len() > MAX_STORED_EVENTS {
            let ghost pushed = self.kept();
            let _ = self.events.pop_front();
            proof {
                assert(self.kept() =~= pushed.drop_first());
            }
        }
        proof {
            let k = self.kept();
            assert forall|i: int, j: int| 0 <= i < j < k.len() implies #[trigger] k[i].sequence
                < #[trigger] k[j].sequence by {
                if before.len() + 1 > MAX_STORED_EVENTS {
                    assert(k[i] == before.push(e)[i + 1]);
                    assert(k[j] == before.push(e)[j + 1]);
                } else {
                    assert(k[i] == before.push(e)[i]);
                    assert(k[j] == before.push(e)[j]);
                }
            }
            assert forall|i: int| 0 <= i < k.len() implies #[trigger] k[i].sequence <= sequence
                && k[i].sequence > 0 by {
                if before.len() + 1 > MAX_STORED_EVENTS {
                    assert(k[i] == before.push(e)[i + 1]);
                } else {
                    assert(k[i] == before.push(e)[i]);
                }
            }
        }
        sequence
    }
}

/// Copies of the kept events with a sequence number above
/// `after_sequence`, oldest first.
pub fn drain_session_events(log: &SessionEventLog, after_sequence: u64) -> (r: Vec<StoredSessionEvent>)
    ensures
        event_views(r@) == newer_than(log.kept(), after_sequence),
{
    let ghost k = log.kept();
    let mut r: Vec<StoredSessionEvent> = Vec::new();
    let mut i: usize = 0;
    assert(k.take(0) =~= Seq::<StoredEventView>::empty());
    assert(event_views(r@) =~= Seq::<StoredEventView>::empty());
    while i < log.events.len()
        invariant
            i <= log.events@.len(),
            k == log.kept(),
            event_views(r@) == newer_than(k.take(i as int), after_sequence),
        decreases log.events.len() - i,
    {
        let ghost prev = r@;
        assert(k.take(i + 1).drop_last() =~= k.take(i as int));
        assert(k.take(i + 1).last() == log.events@[i as int]@);
        if log.events[i].sequence > after_sequence {
            let copy = log.events[i].duplicate();
            r.push(copy);
            assert(event_views(r@) =~= event_views(prev).push(log.events@[i as int]@));
        }
        i += 1;
    }
    assert(k.take(k.len() as int) =~= k);
    r
}

proof fn lemma_newer_than_none(s: Seq<StoredEventView>, after: u64)
    requires
        all_at_most(s, after),
    ensures
        newer_than(s, after) == Seq::<StoredEventView>::empty(),
    decreases s.len(),
{
    if s.len() > 0 {
        let d = s.drop_last();
        assert(all_at_most(d, after)) by {
            assert forall|i: int| 0 <= i < d.len() implies #[trigger] d[i].sequence <= after by {
                assert(d[i] == s[i]);
            }
        }
        assert(s.last() == s[s.len() - 1]);
        lemma_newer_than_none(d, after);
    }
}

proof fn lemma_newer_than_drop_first(s: Seq<StoredEventView>, after: u64)
    requires
        s.len() > 0,
        s[0].sequence <= after,
    ensures
        newer_than(s.drop_first(), after) == newer_than(s, after),
    decreases s.len(),
{
    if s.len() == 1 {
        assert(s.drop_first() =~= Seq::<StoredEventView>::empty());
        assert(s.drop_last() =~= Seq::<StoredEventView>::empty());
        assert(s.last() == s[0]);
    } else {
        let d = s.drop_last();
        assert(s.drop_first().drop_last() =~= d.drop_first());
        assert(s.drop_first().last() == s.last());
        assert(d[0] == s[0]);
        lemma_newer_than_drop_first(d, after);
    }
}

proof fn lemma_newer_than_bounds(s: Seq<StoredEventView>, after: u64)
    requires
        increasing(s),
    ensures
        increasing(newer_than(s, after)),
        forall|i: int|
            0 <= i < newer_than(s, after).len() ==> #[trigger] newer_than(s, after)[i].sequence
                > after,
        forall|i: int|
            0 <= i < newer_than(s, after).len() ==> exists|j: int|
                0 <= j < s.len() && #[trigger] newer_than(s, after)[i] == s[j],
    decreases s.len(),
{
    if s.len() > 0 {
        let d = s.drop_last();
        assert(increasing(d)) by {
            assert forall|i: int, j: int| 0 <= i < j < d.len() implies #[trigger] d[i].sequence
                < #[trigger] d[j].sequence by {
                assert(d[i] == s[i] && d[j] == s[j]);
            }
        }
        lemma_newer_than_bounds(d, after);
        let n = newer_than(d, after);
        assert forall|i: int| 0 <= i < n.len() implies exists|j: int|
            0 <= j < s.len() && #[trigger] n[i] == s[j] by {
            let j = choose|j: int| 0 <= j < d.len() && n[i] == d[j];
            assert(d[j] == s[j]);
        }
        if s.last().sequence > after {
            let m = n.push(s.last());
            assert forall|i: int| 0 <= i < n.len() implies #[trigger] n[i].sequence < s.last().sequence by {
                let j = choose|j: int| 0 <= j < d.len() && n[i] == d[j];
                assert(d[j] == s[j]);
                assert(s[j].sequence < s[s.len() - 1].sequence);
            }
            assert forall|i: int, j: int| 0 <= i < j < m.len() implies #[trigger] m[i].sequence
                < #[trigger] m[j].sequence by {
                assert(m[i] == n[i]);
                if j < n.len() {
                    assert(m[j] == n[j]);
                }
            }
            assert forall|i: int| 0 <= i < m.len() implies exists|j: int|
                0 <= j < s.len() && #[trigger] m[i] == s[j] by {
                if i < n.len() {
                    assert(m[i] == n[i]);
                } else {
                    assert(m[i] == s[s.len() - 1]);
                }
            }
        }
    }
}

/// A window that has seen every event up to the last one recorded gets, at
/// its next drain, exactly the event recorded after that.
pub proof fn lemma_drain_sees_next_event(
    kept: Seq<StoredEventView>,
    last: u64,
    event: StoredEventView,
)
    requires
        increasing(kept),
        all_at_most(kept, last),
        event.sequence == last + 1,
    ensures
        newer_than(stored_after(kept, event), last) == seq![event],
{
    lemma_newer_than_none(kept, last);
    let p = kept.push(event);
    assert(p.drop_last() =~= kept);
    assert(newer_than(p, last) =~= seq![event]);
    if kept.len() + 1 > MAX_STORED_EVENTS {
        assert(p[0] == kept[0]);
        lemma_newer_than_drop_first(p, last);
    }
}

/// A drain after the last sequence number recorded gives nothing.
pub proof fn lemma_drain_after_last_is_empty(kept: Seq<StoredEventView>, last: u64)
    requires
        all_at_most(kept, last),
    ensures
        newer_than(kept, last) == Seq::<StoredEventView>::empty(),
{
    lemma_newer_than_none(kept, last);
}

/// A drain gives kept events only, each newer than the number asked for, in
/// rising order.
pub proof fn lemma_drain_in_order(kept: Seq<StoredEventView>, after: u64)
    requires
        increasing(kept),
    ensures
        increasing(newer_than(kept, after)),
        forall|i: int|
            0 <= i < newer_than(kept, after).len() ==> #[trigger] newer_than(kept, after)[i].sequence
                > after,
        forall|i: int|
            0 <= i < newer_than(kept, after).len() ==> kept.contains(
                #[trigger] newer_than(kept, after)[i],
            ),
{
    lemma_newer_than_bounds(kept, after);
    assert forall|i: int| 0 <= i < newer_than(kept, after).len() implies kept.contains(
        #[trigger] newer_than(kept, after)[i],
    ) by {
        let j = choose|j: int| 0 <= j < kept.len() && newer_than(kept, after)[i] == kept[j];
    }
}

/// A drain after 0 gives every kept event.
pub proof fn lemma_drain_from_start_gives_all(kept: Seq<StoredEventView>)
    requires
        all_numbered(kept),
    ensures
        newer_than(kept, 0) == kept,
    decreases kept.len(),
{
    if kept.len() > 0 {
        let d = kept.drop_last();
        assert forall|i: int| 0 <= i < d.len() implies #[trigger] d[i].sequence > 0 by {
            assert(d[i] == kept[i]);
        }
        lemma_drain_from_start_gives_all(d);
        assert(kept.last() == kept[kept.len() - 1]);
        assert(d.push(kept.last()) =~= kept);
    }
}

} // verus!
