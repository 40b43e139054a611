//! The path-keyed rendezvous registry: two mappings, pending senders and
//! pending receivers, with the one-in-flight-per-side-per-path discipline
//! and the global guarantee that no path is pending on both sides at once.

use vstd::prelude::*;

use crate::strutil::str_eq;

verus! {

/// The mapping a list of `(path, id)` entries stands for; a later entry
/// wins, though the registry never keeps two entries on one path.
pub open spec fn alist_map(s: Seq<(String, u64)>) -> Map<Seq<char>, u64>
    decreases s.len(),
{
    if s.len() == 0 {
        Map::empty()
    } else {
        alist_map(s.drop_last()).insert(s.last().0@, s.last().1)
    }
}

/// No two entries share a path.
pub open spec fn unique_paths(s: Seq<(String, u64)>) -> bool {
    forall|i: int, j: int| 0 <= i < j < s.len() ==> s[i].0@ != s[j].0@
}

proof fn lemma_alist_map_domain(s: Seq<(String, u64)>, k: Seq<char>)
    ensures
        alist_map(s).contains_key(k) <==> exists|i: int| 0 <= i < s.len() && s[i].0@ == k,
    decreases s.len(),
{
    if s.len() == 0 {
    } else {
        lemma_alist_map_domain(s.drop_last(), k);
        if s.last().0@ == k {
            assert(s[s.len() - 1].0@ == k);
        } else {
            if exists|i: int| 0 <= i < s.len() && s[i].0@ == k {
                let i = choose|i: int| 0 <= i < s.len() && s[i].0@ == k;
                assert(i < s.len() - 1);
                assert(s.drop_last()[i].0@ == k);
            }
        }
    }
}

proof fn lemma_alist_map_index(s: Seq<(String, u64)>, i: int)
    requires
        unique_paths(s),
        0 <= i < s.len(),
    ensures
        alist_map(s).contains_key(s[i].0@),
        alist_map(s)[s[i].0@] == s[i].1,
    decreases s.len(),
{
    if i == s.len() - 1 {
    } else {
        assert(unique_paths(s.drop_last()));
        assert(s.drop_last()[i] == s[i]);
        lemma_alist_map_index(s.drop_last(), i);
        assert(s[i].0@ != s.last().0@);
    }
}

proof fn lemma_alist_map_push(s: Seq<(String, u64)>, e: (String, u64))
    ensures
        alist_map(s.push(e)) == alist_map(s).insert(e.0@, e.1),
{
    assert(s.push(e).drop_last() =~= s);
    assert(s.push(e).last() == e);
}

proof fn lemma_alist_map_remove(s: Seq<(String, u64)>, i: int)
    requires
        unique_paths(s),
        0 <= i < s.len(),
    ensures
        alist_map(s.remove(i)) =~= alist_map(s).remove(s[i].0@),
        unique_paths(s.remove(i)),
    decreases s.len(),
{
    let k = s[i].0@;
    assert forall|a: int, b: int| 0 <= a < b < s.remove(i).len() implies s.remove(i)[a].0@ != s.remove(
        i,
    )[b].0@ by {
        if b < i {
            assert(s.remove(i)[a] == s[a] && s.remove(i)[b] == s[b]);
        } else if a < i <= b {
            assert(s.remove(i)[a] == s[a] && s.remove(i)[b] == s[b + 1]);
        } else {
            assert(s.remove(i)[a] == s[a + 1] && s.remove(i)[b] == s[b + 1]);
        }
    }
    if i == s.len() - 1 {
        assert(s.remove(i) =~= s.drop_last());
        lemma_alist_map_domain(s.drop_last(), k);
        assert(forall|j: int| 0 <= j < s.len() - 1 ==> s.drop_last()[j].0@ != k);
        assert(!alist_map(s.drop_last()).contains_key(k));
        assert(alist_map(s) == alist_map(s.drop_last()).insert(k, s[i].1));
        assert(alist_map(s).remove(k) =~= alist_map(s.drop_last()));
    } else {
        let dl = s.drop_last();
        assert(unique_paths(dl));
        assert(dl[i] == s[i]);
        lemma_alist_map_remove(dl, i);
        let r = s.remove(i);
        assert(r.drop_last() =~= dl.remove(i));
        assert(r.last() == s.last());
        assert(alist_map(r) == alist_map(r.drop_last()).insert(s.last().0@, s.last().1));
        assert(s.last().0@ != k);
        assert(alist_map(r) =~= alist_map(s).remove(k));
    }
}

/// Index of the entry on path `p`, if one exists.
fn alist_find(v: &Vec<(String, u64)>, p: &str) -> (r: Option<usize>)
    ensures
        match r {
            Some(i) => 0 <= i < v@.len() && v@[i as int].0@ == p@,
            None => forall|i: int| 0 <= i < v@.len() ==> v@[i].0@ != p@,
        },
{
    let mut i: usize = 0;
    while i < v.len()
        invariant
            i <= v@.len(),
            forall|j: int| 0 <= j < i ==> v@[j].0@ != p@,
        decreases v@.len() - i,
    {
        if str_eq(v[i].0.as_str(), p) {
            return Some(i);
        }
        i = i + 1;
    }
    None
}

/// What became of a receiver's `GET` on a user path.
pub enum ReceiverOutcome {
    /// Another receiver is already pending on the path; this one is rejected.
    Rejected,
    /// A sender was pending on the path; the transfer may begin.
    Matched { sender_id: u64 },
    /// Nobody was pending; the receiver is parked.
    Parked,
}

/// What became of a sender's `POST`/`PUT` on a user path.
pub enum SenderOutcome {
    /// Another sender is already pending on the path; this one is rejected.
    Rejected,
    /// A receiver was pending on the path; the transfer may begin.
    Matched { receiver_id: u64 },
    /// Nobody was pending; the sender is parked.
    Parked,
}

/// The rendezvous registry.  A parked party is recorded as the identifier
/// under which the surrounding plumbing keeps its request and response
/// handles, keyed by the rendezvous path.
pub struct Registry {
    senders: Vec<(String, u64)>,
    receivers: Vec<(String, u64)>,
}

impl Registry {
    /// The pending senders, path to identifier.
    pub closed spec fn senders_map(self) -> Map<Seq<char>, u64> {
        alist_map(self.senders@)
    }

    /// The pending receivers, path to identifier.
    pub closed spec fn receivers_map(self) -> Map<Seq<char>, u64> {
        alist_map(self.receivers@)
    }

    /// Well-formedness: each side keeps at most one entry per path, and no
    /// path is pending on both sides at once.
    pub closed spec fn wf(self) -> bool {
        &&& unique_paths(self.senders@)
        &&& unique_paths(self.receivers@)
        &&& forall|k: Seq<char>|
            #[trigger] alist_map(self.senders@).contains_key(k) ==> !alist_map(
                self.receivers@,
            ).contains_key(k)
    }

    /// For any path, at most one of the two mappings holds an entry.
    pub proof fn lemma_one_side_per_path(self, p: Seq<char>)
        requires
            self.wf(),
        ensures
            !(self.senders_map().contains_key(p) && self.receivers_map().contains_key(p)),
    {
    }

    /// An empty registry.
    pub fn new() -> (r: Registry)
        ensures
            r.wf(),
            r.senders_map() == Map::<Seq<char>, u64>::empty(),
            r.receivers_map() == Map::<Seq<char>, u64>::empty(),
    {
        Registry { senders: Vec::new(), receivers: Vec::new() }
    }

    /// A receiver arrives on `path`.  Atomically: reject it if a receiver
    /// is already pending there; pop and match a pending sender if one is
    /// there; otherwise park the receiver under `receiver_id`.  A rejection
    /// leaves both mappings untouched; a match leaves the path in neither.
    pub fn register_or_match_receiver(&mut self, path: &str, receiver_id: u64) -> (r:
        ReceiverOutcome)
        requires
            old(self).wf(),
        ensures
            final(self).wf(),
            match r {
                ReceiverOutcome::Rejected => {
                    &&& old(self).receivers_map().contains_key(path@)
                    &&& final(self).senders_map() == old(self).senders_map()
                    &&& final(self).receivers_map() == old(self).receivers_map()
                },
                ReceiverOutcome::Matched { sender_id } => {
                    &&& !old(self).receivers_map().contains_key(path@)
                    &&& old(self).senders_map().contains_key(path@)
                    &&& sender_id == old(self).senders_map()[path@]
                    &&& final(self).senders_map() == old(self).senders_map().remove(path@)
                    &&& final(self).receivers_map() == old(self).receivers_map()
                    &&& !final(self).senders_map().contains_key(path@)
                    &&& !final(self).receivers_map().contains_key(path@)
                },
                ReceiverOutcome::Parked => {
                    &&& !old(self).receivers_map().contains_key(path@)
                    &&& !old(self).senders_map().contains_key(path@)
                    &&& final(self).receivers_map() == old(self).receivers_map().insert(
                        path@,
                        receiver_id,
                    )
                    &&& final(self).senders_map() == old(self).senders_map()
                },
            },
    {
        proof {
            lemma_alist_map_domain(self.receivers@, path@);
            lemma_alist_map_domain(self.senders@, path@);
        }
        if alist_find(&self.receivers, path).is_some() {
            return ReceiverOutcome::Rejected;
        }
        match alist_find(&self.senders, path) {
            Some(i) => {
                proof {
                    lemma_alist_map_index(self.senders@, i as int);
                    lemma_alist_map_remove(self.senders@, i as int);
                }
                let e = self.senders.remove(i);
                ReceiverOutcome::Matched { sender_id: e.1 }
            },
            None => {
                let owned: String = path.to_owned();
                let ghost before = self.receivers@;
                let ghost entry = (owned, receiver_id);
                self.receivers.push((owned, receiver_id));
                proof {
                    assert(self.receivers@ =~= before.push(entry));
                    lemma_alist_map_push(before, entry);
                    assert forall|k: Seq<char>|
                        #[trigger] alist_map(self.senders@).contains_key(k) implies !alist_map(
                        self.receivers@,
                    ).contains_key(k) by {
                        assert(k != path@);
                    }
                }
                ReceiverOutcome::Parked
            },
        }
    }

    /// A sender arrives on `path`.  Atomically: reject it if a sender is
    /// already pending there; pop and match a pending receiver if one is
    /// there; otherwise park the sender under `sender_id`.  A rejection
    /// leaves both mappings untouched; a match leaves the path in neither.
    pub fn register_or_match_sender(&mut self, path: &str, sender_id: u64) -> (r: SenderOutcome)
        requires
            old(self).wf(),
        ensures
            final(self).wf(),
            match r {
                SenderOutcome::Rejected => {
                    &&& old(self).senders_map().contains_key(path@)
                    &&& final(self).senders_map() == old(self).senders_map()
                    &&& final(self).receivers_map() == old(self).receivers_map()
                },
                SenderOutcome::Matched { receiver_id } => {
                    &&& !old(self).senders_map().contains_key(path@)
                    &&& old(self).receivers_map().contains_key(path@)
                    &&& receiver_id == old(self).receivers_map()[path@]
                    &&& final(self).receivers_map() == old(self).receivers_map().remove(path@)
                    &&& final(self).senders_map() == old(self).senders_map()
                    &&& !final(self).senders_map().contains_key(path@)
                    &&& !final(self).receivers_map().contains_key(path@)
                },
                SenderOutcome::Parked => {
                    &&& !old(self).senders_map().contains_key(path@)
                    &&& !old(self).receivers_map().contains_key(path@)
                    &&& final(self).senders_map() == old(self).senders_map().insert(
                        path@,
                        sender_id,
                    )
                    &&& final(self).receivers_map() == old(self).receivers_map()
                },
            },
    {
        proof {
            lemma_alist_map_domain(self.receivers@, path@);
            lemma_alist_map_domain(self.senders@, path@);
        }
        if alist_find(&self.senders, path).is_some() {
            return SenderOutcome::Rejected;
        }
        match alist_find(&self.receivers, path) {
            Some(i) => {
                proof {
                    lemma_alist_map_index(self.receivers@, i as int);
                    lemma_alist_map_remove(self.receivers@, i as int);
                }
                let e = self.receivers.remove(i);
                SenderOutcome::Matched { receiver_id: e.1 }
            },
            None => {
                let owned: String = path.to_owned();
                let ghost before = self.senders@;
                let ghost entry = (owned, sender_id);
                self.senders.push((owned, sender_id));
                proof {
                    assert(self.senders@ =~= before.push(entry));
                    lemma_alist_map_push(before, entry);
                    assert forall|k: Seq<char>|
                        #[trigger] alist_map(self.senders@).contains_key(k) implies !alist_map(
                        self.receivers@,
                    ).contains_key(k) by {
                        if k != path@ {
                            assert(alist_map(before).contains_key(k));
                        }
                    }
                }
                SenderOutcome::Parked
            },
        }
    }
}

} // verus!
