//! The pending-replies table: the single shared resource between the
//! socket receive loop and all callers. It maps each correlation id to the
//! waiter handle registered for it, hands every inbound frame to exactly
//! the waiter whose id it bears, and treats every other frame as
//! unsolicited. Ids come from a monotone counter, so an id is never reused
//! while pending, nor ever after.

use vstd::prelude::*;

use crate::frames::Envelope;
use crate::text::{dec_of, parse_dec, parse_dec_spec, u64_to_dec};

verus! {

/// One pending reply: the correlation id and the waiter handle awaiting
/// it.
#[derive(Clone, Copy, Debug, PartialEq, Eq, Structural)]
pub struct PendingEntry {
    pub id: u64,
    pub waiter: u64,
}

/// The mapping a sequence of entries denotes.
pub open spec fn entries_map(s: Seq<PendingEntry>) -> Map<u64, u64>
    decreases s.len(),
{
    if s.len() == 0 {
        Map::empty()
    } else {
        entries_map(s.drop_last()).insert(s.last().id, s.last().waiter)
    }
}

/// An id is in the mapping exactly when some entry bears it.
proof fn lemma_entries_map_dom(s: Seq<PendingEntry>)
    ensures
        forall|k: u64|
            entries_map(s).contains_key(k) <==> exists|i: int| 0 <= i < s.len() && s[i].id == k,
    decreases s.len(),
{
    if s.len() > 0 {
        lemma_entries_map_dom(s.drop_last());
        assert(entries_map(s) == entries_map(s.drop_last()).insert(s.last().id, s.last().waiter));
        assert forall|k: u64| entries_map(s).contains_key(k) implies exists|i: int|
            0 <= i < s.len() && s[i].id == k by {
            if k == s.last().id {
                assert(s[s.len() - 1].id == k);
            } else {
                assert(entries_map(s.drop_last()).contains_key(k));
                let i = choose|i: int| 0 <= i < s.drop_last().len() && s.drop_last()[i].id == k;
                assert(s.drop_last()[i] == s[i]);
                assert(s[i].id == k);
            }
        }
        assert forall|k: u64| exists|i: int| 0 <= i < s.len() && s[i].id == k implies entries_map(
            s,
        ).contains_key(k) by {
            let i = choose|i: int| 0 <= i < s.len() && s[i].id == k;
            if i < s.len() - 1 {
                assert(s.drop_last()[i].id == k);
            }
        }
    }
}

/// With no id repeated, the mapping sends each entry's id to its waiter.
proof fn lemma_entries_map_at(s: Seq<PendingEntry>, i: int)
    requires
        forall|p: int, q: int| 0 <= p < q < s.len() ==> s[p].id != s[q].id,
        0 <= i < s.len(),
    ensures
        entries_map(s).contains_key(s[i].id),
        entries_map(s)[s[i].id] == s[i].waiter,
    decreases s.len(),
{
    if i == s.len() - 1 {
    } else {
        lemma_entries_map_at(s.drop_last(), i);
        assert(s[i].id != s.last().id);
        assert(s.drop_last()[i] == s[i]);
    }
}

/// With no id repeated, removing one entry removes exactly its id from
/// the mapping.
proof fn lemma_entries_map_remove(s: Seq<PendingEntry>, i: int)
    requires
        forall|p: int, q: int| 0 <= p < q < s.len() ==> s[p].id != s[q].id,
        0 <= i < s.len(),
    ensures
        entries_map(s.remove(i)) == entries_map(s).remove(s[i].id),
    decreases s.len(),
{
    lemma_entries_map_dom(s.drop_last());
    if i == s.len() - 1 {
        assert(s.remove(i) =~= s.drop_last());
        assert(!entries_map(s.drop_last()).contains_key(s[i].id));
        assert(entries_map(s.drop_last()) =~= entries_map(s).remove(s[i].id));
    } else {
        lemma_entries_map_remove(s.drop_last(), i);
        assert(s.remove(i).drop_last() =~= s.drop_last().remove(i));
        assert(s.remove(i).last() == s.last());
        assert(entries_map(s.remove(i)) == entries_map(s.drop_last().remove(i)).insert(
            s.last().id,
            s.last().waiter,
        ));
        assert(s[i].id != s.last().id);
        assert(entries_map(s.drop_last()).remove(s[i].id).insert(s.last().id, s.last().waiter)
            =~= entries_map(s.drop_last()).insert(s.last().id, s.last().waiter).remove(s[i].id));
    }
}

/// The key a wire id denotes: its canonical decimal value, if it has one
/// that fits; an empty or foreign id denotes none.
pub open spec fn wire_key(id_text: Seq<char>) -> Option<u64> {
    match parse_dec_spec(id_text) {
        Some(n) => if n <= u64::MAX as nat {
            Some(n as u64)
        } else {
            None
        },
        None => None,
    }
}

/// The waiter an inbound frame with the given id is handed to, if any.
pub open spec fn route_waiter(m: Map<u64, u64>, id_text: Seq<char>) -> Option<u64> {
    match wire_key(id_text) {
        Some(k) => if m.contains_key(k) {
            Some(m[k])
        } else {
            None
        },
        None => None,
    }
}

/// The table after routing a frame: the delivered id's entry is removed
/// exactly when the frame says no more chunks follow.
pub open spec fn route_map(m: Map<u64, u64>, id_text: Seq<char>, last: bool) -> Map<u64, u64> {
    match wire_key(id_text) {
        Some(k) => if m.contains_key(k) && last {
            m.remove(k)
        } else {
            m
        },
        None => m,
    }
}

/// Where the receive loop hands one inbound frame.
#[derive(Clone, Copy, Debug, PartialEq, Eq, Structural)]
pub enum RouteOutcome {
    /// Hand the frame to this waiter; its entry was removed exactly when
    /// `removed` says so.
    Deliver { waiter: u64, removed: bool },
    /// No waiter bears the frame's id: route it as a notification.
    Unsolicited,
}

/// The pending-replies table, keyed by correlation id.
pub struct PendingTable {
    /// The pending entries; no id appears twice.
    pub entries: Vec<PendingEntry>,
    /// Source of fresh ids: every id ever issued is below it.
    pub next_id: u64,
}

impl PendingTable {
    /// No id is repeated, and every pending id has already been issued.
    pub open spec fn wf(self) -> bool {
        &&& forall|p: int, q: int|
            0 <= p < q < self.entries@.len() ==> self.entries@[p].id != self.entries@[q].id
        &&& forall|i: int|
            0 <= i < self.entries@.len() ==> (#[trigger] self.entries@[i]).id < self.next_id
    }

    /// The mapping from pending correlation id to waiter handle.
    pub open spec fn as_map(self) -> Map<u64, u64> {
        entries_map(self.entries@)
    }

    /// An empty table.
    pub fn new() -> (r: PendingTable)
        ensures
            r.wf(),
            r.as_map() == Map::<u64, u64>::empty(),
            r.next_id == 0,
    {
        PendingTable { entries: Vec::new(), next_id: 0 }
    }

    /// Allocate a fresh correlation id and insert a waiter under it. The
    /// id was never issued before and so is not pending: every insert is
    /// its own entry, never an overwrite.
    pub fn register(&mut self, waiter: u64) -> (id: u64)
        requires
            old(self).wf(),
            old(self).next_id < u64::MAX,
        ensures
            final(self).wf(),
            id == old(self).next_id,
            !old(self).as_map().contains_key(id),
            final(self).as_map() == old(self).as_map().insert(id, waiter),
            final(self).next_id == id + 1,
    {
        let id = self.next_id;
        proof {
            lemma_entries_map_dom(self.entries@);
        }
        self.entries.push(PendingEntry { id, waiter });
        self.next_id = id + 1;
        proof {
            assert(self.entries@.drop_last() =~= old(self).entries@);
        }
        id
    }

    /// Issue a fresh id without registering a waiter, for a send that
    /// expects no reply: the frame still carries an id that no pending
    /// entry bears or will ever bear.
    pub fn issue_id(&mut self) -> (id: u64)
        requires
            old(self).wf(),
            old(self).next_id < u64::MAX,
        ensures
            final(self).wf(),
            id == old(self).next_id,
            !old(self).as_map().contains_key(id),
            final(self).as_map() == old(self).as_map(),
            final(self).entries == old(self).entries,
            final(self).next_id == id + 1,
    {
        let id = self.next_id;
        proof {
            lemma_entries_map_dom(self.entries@);
        }
        self.next_id = id + 1;
        id
    }

    /// The wire form of a correlation id: its canonical decimal text.
    pub fn id_string(id: u64) -> (r: String)
        ensures
            r@ == dec_of(id as nat),
            wire_key(r@) == Some(id),
    {
        proof {
            crate::text::lemma_parse_dec_of(id as nat);
        }
        u64_to_dec(id)
    }

    /// Remove a waiter's entry, as an abandoning caller must on timeout
    /// or disconnect. Every other entry is untouched.
    pub fn remove(&mut self, id: u64) -> (removed: bool)
        requires
            old(self).wf(),
        ensures
            final(self).wf(),
            removed == old(self).as_map().contains_key(id),
            final(self).as_map() == old(self).as_map().remove(id),
            final(self).next_id == old(self).next_id,
    {
        let ghost s = self.entries@;
        let mut i: usize = 0;
        while i < self.entries.len()
            invariant
                *self == *old(self),
                old(self).wf(),
                s == self.entries@,
                0 <= i <= s.len(),
                forall|j: int| 0 <= j < i ==> s[j].id != id,
            decreases s.len() - i,
        {
            if self.entries[i].id == id {
                self.entries.remove(i);
                proof {
                    lemma_entries_map_remove(s, i as int);
                    lemma_entries_map_dom(s);
                }
                return true;
            }
            i = i + 1;
        }
        proof {
            lemma_entries_map_dom(s);
            assert(!entries_map(s).contains_key(id));
            assert(entries_map(s).remove(id) =~= entries_map(s));
        }
        false
    }

    /// Route one inbound frame: hand it to the waiter pending under its
    /// id, removing the entry unless more chunks follow; hand every frame
    /// with an empty, foreign, or stale id onward as unsolicited.
    pub fn route(&mut self, env: &Envelope) -> (r: RouteOutcome)
        requires
            old(self).wf(),
        ensures
            final(self).wf(),
            final(self).next_id == old(self).next_id,
            final(self).as_map() == route_map(old(self).as_map(), env.id@, env.last),
            match route_waiter(old(self).as_map(), env.id@) {
                Some(w) => r == (RouteOutcome::Deliver { waiter: w, removed: env.last }),
                None => r == RouteOutcome::Unsolicited,
            },
    {
        let key = match parse_dec(env.id.as_str()) {
            Some(k) => k,
            None => {
                return RouteOutcome::Unsolicited;
            },
        };
        let ghost s = self.entries@;
        let mut i: usize = 0;
        while i < self.entries.len()
            invariant
                *self == *old(self),
                old(self).wf(),
                s == self.entries@,
                wire_key(env.id@) == Some(key),
                0 <= i <= s.len(),
                forall|j: int| 0 <= j < i ==> s[j].id != key,
            decreases s.len() - i,
        {
            if self.entries[i].id == key {
                let waiter = self.entries[i].waiter;
                proof {
                    lemma_entries_map_at(s, i as int);
                }
                if env.last {
                    self.entries.remove(i);
                    proof {
                        lemma_entries_map_remove(s, i as int);
                    }
                }
                return RouteOutcome::Deliver { waiter, removed: env.last };
            }
            i = i + 1;
        }
        proof {
            lemma_entries_map_dom(s);
            assert(!entries_map(s).contains_key(key));
        }
        RouteOutcome::Unsolicited
    }
}

/// Law: while two calls are pending under distinct correlation ids, a
/// frame bearing the first id is handed to the first caller's waiter —
/// never the second's — and the second caller's entry survives routing
/// unchanged, whatever the interleaving of sends that produced the table.
pub proof fn lemma_replies_never_cross(m: Map<u64, u64>, id1: u64, id2: u64, last: bool)
    requires
        m.contains_key(id1),
        m.contains_key(id2),
        id1 != id2,
    ensures
        route_waiter(m, dec_of(id1 as nat)) == Some(m[id1]),
        m[id1] != m[id2] ==> route_waiter(m, dec_of(id1 as nat)) != Some(m[id2]),
        route_map(m, dec_of(id1 as nat), last).contains_key(id2),
        route_map(m, dec_of(id1 as nat), last)[id2] == m[id2],
{
    crate::text::lemma_parse_dec_of(id1 as nat);
    assert(wire_key(dec_of(id1 as nat)) == Some(id1));
}

/// Law: after a waiter's entry is removed — by timeout, disconnect, or
/// delivery of its final chunk — a later frame bearing that stale id is
/// routed as unsolicited and the table is untouched; it is never handed
/// to a dead waiter.
pub proof fn lemma_stale_id_unsolicited(m: Map<u64, u64>, id: u64, last: bool)
    requires
        !m.contains_key(id),
    ensures
        route_waiter(m, dec_of(id as nat)) is None,
        route_map(m, dec_of(id as nat), last) == m,
{
    crate::text::lemma_parse_dec_of(id as nat);
    assert(wire_key(dec_of(id as nat)) == Some(id));
}

} // verus!
