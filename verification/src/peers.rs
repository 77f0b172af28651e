//! The table of peers that hold a media session, keyed by client id.

use vstd::prelude::*;

verus! {

/// The peers that currently hold a media session, keyed by client id.
///
/// Each id occurs at most once. Entries keep the order in which their ids
/// were first registered; registering an id again replaces its peer in place.
pub struct PeerTable<P> {
    ids: Vec<String>,
    peers: Vec<P>,
}

impl<P> PeerTable<P> {
    /// The table's internal invariant: one peer per id, no id twice.
    #[verifier::type_invariant]
    pub(crate) closed spec fn well_formed(&self) -> bool {
        &&& self.ids.len() == self.peers.len()
        &&& forall|i: int, j: int|
            0 <= i < j < self.ids.len() ==> #[trigger] self.id_at(i) != #[trigger] self.id_at(j)
    }

    /// The number of entries.
    pub closed spec fn size(&self) -> nat {
        self.ids@.len()
    }

    /// The id of the entry at position `i`.
    pub closed spec fn id_at(&self, i: int) -> Seq<char> {
        self.ids@[i]@
    }

    /// The peer of the entry at position `i`.
    pub closed spec fn peer_at(&self, i: int) -> P {
        self.peers@[i]
    }

    /// The ids of the entries, in order.
    pub open spec fn ids(&self) -> Seq<Seq<char>> {
        Seq::new(self.size(), |i: int| self.id_at(i))
    }

    /// Whether some entry has the id `id`.
    pub open spec fn has(&self, id: Seq<char>) -> bool {
        exists|i: int| 0 <= i < self.size() && self.id_at(i) == id
    }

    /// The position of the entry with the id `id`.
    pub open spec fn slot(&self, id: Seq<char>) -> int {
        choose|i: int| 0 <= i < self.size() && self.id_at(i) == id
    }

    /// In a well-formed table, the entry at position `i` is the one that its
    /// id names.
    pub(crate) proof fn lemma_entry(&self, i: int)
        requires
            self.well_formed(),
            0 <= i < self.size(),
        ensures
            self.has(self.id_at(i)),
            self.slot(self.id_at(i)) == i,
            self@.contains_key(self.id_at(i)),
            self@[self.id_at(i)] == self.peer_at(i),
    {
        let k = self.id_at(i);
        assert(self.has(k));
        let j: int = self.slot(k);
        if j < i {
            assert(self.id_at(j) != self.id_at(i));
        } else if i < j {
            assert(self.id_at(i) != self.id_at(j));
        }
    }

    /// A well-formed table maps each of its ids to the peer beside it, and
    /// nothing else.
    pub(crate) proof fn lemma_view(&self)
        requires
            self.well_formed(),
        ensures
            forall|k: Seq<char>| #[trigger] self@.contains_key(k) <==> self.ids().contains(k),
            forall|i: int|
                0 <= i < self.size() ==> #[trigger] self@[self.id_at(i)] == self.peer_at(i),
            self@.dom().finite(),
            self@.len() == self.size(),
    {
        assert forall|i: int| 0 <= i < self.size() implies #[trigger] self@[self.id_at(i)]
            == self.peer_at(i) by {
            self.lemma_entry(i);
        }
        assert forall|k: Seq<char>| #[trigger] self@.contains_key(k) <==> self.ids().contains(
            k,
        ) by {
            if self@.contains_key(k) {
                let i: int = self.slot(k);
                assert(self.ids()[i] == k);
            }
            if self.ids().contains(k) {
                let i: int = choose|i: int| 0 <= i < self.ids().len() && self.ids()[i] == k;
                assert(self.id_at(i) == k);
            }
        }
        self.lemma_ids_no_duplicates();
        assert(self@.dom() =~= self.ids().to_set());
        self.ids().unique_seq_to_set();
    }

    /// No id occurs twice in a well-formed table.
    pub(crate) proof fn lemma_ids_no_duplicates(&self)
        requires
            self.well_formed(),
        ensures
            self.ids().no_duplicates(),
    {
        assert forall|i: int, j: int|
            0 <= i < self.ids().len() && 0 <= j < self.ids().len() && i != j implies self.ids()[i]
            != self.ids()[j] by {
            if i < j {
                assert(self.id_at(i) != self.id_at(j));
            } else {
                assert(self.id_at(j) != self.id_at(i));
            }
        }
    }

    /// An empty table.
    pub fn new() -> (table: Self)
        ensures
            table@ == Map::<Seq<char>, P>::empty(),
            table.size() == 0,
    {
        let table = PeerTable { ids: Vec::new(), peers: Vec::new() };
        assert(table@ =~= Map::<Seq<char>, P>::empty());
        table
    }

    /// The position of the entry with the id `id`, if there is one.
    fn find(&self, id: &String) -> (position: Option<usize>)
        requires
            self.well_formed(),
        ensures
            match position {
                Some(i) => i < self.size() && self.id_at(i as int) == id@,
                None => !self.has(id@),
            },
    {
        let mut i: usize = 0;
        while i < self.ids.len()
            invariant
                self.well_formed(),
                i <= self.ids.len(),
                forall|j: int| 0 <= j < i ==> self.id_at(j) != id@,
            decreases self.ids.len() - i,
        {
            if self.ids[i] == *id {
                return Some(i);
            }
            i += 1;
        }
        None
    }

    /// The number of entries.
    pub fn len(&self) -> (n: usize)
        ensures
            n == self.size(),
            n == self@.len(),
    {
        proof {
            use_type_invariant(self);
            self.lemma_view();
        }
        self.ids.len()
    }

    /// The entry at position `i`: its id and its peer.
    pub fn entry(&self, i: usize) -> (entry: (&String, &P))
        requires
            i < self.size(),
        ensures
            entry.0@ == self.id_at(i as int),
            *entry.1 == self.peer_at(i as int),
            self@.contains_key(entry.0@),
            self@[entry.0@] == *entry.1,
    {
        proof {
            use_type_invariant(self);
            self.lemma_entry(i as int);
        }
        (&self.ids[i], &self.peers[i])
    }

    /// Whether the table holds a peer for the id `id`.
    pub fn contains(&self, id: &str) -> (found: bool)
        ensures
            found == self@.contains_key(id@),
    {
        proof {
            use_type_invariant(self);
        }
        let key = id.to_owned();
        match self.find(&key) {
            Some(i) => {
                proof {
                    self.lemma_entry(i as int);
                }
                true
            },
            None => false,
        }
    }

    /// The peer registered for the id `id`, if there is one.
    pub fn get(&self, id: &str) -> (peer: Option<&P>)
        ensures
            peer is Some == self@.contains_key(id@),
            peer matches Some(p) ==> *p == self@[id@],
    {
        proof {
            use_type_invariant(self);
        }
        let key = id.to_owned();
        match self.find(&key) {
            Some(i) => {
                proof {
                    self.lemma_entry(i as int);
                }
                Some(&self.peers[i])
            },
            None => None,
        }
    }

    /// Registers `peer` under the id `id`, replacing and returning the peer
    /// that the id had before.
    ///
    /// A new id is appended after the existing entries; a known id keeps its
    /// position.
    pub fn insert(&mut self, id: String, peer: P) -> (previous: Option<P>)
        ensures
            final(self)@ == old(self)@.insert(id@, peer),
            previous is Some == old(self)@.contains_key(id@),
            previous matches Some(p) ==> p == old(self)@[id@],
            old(self)@.contains_key(id@) ==> final(self).ids() == old(self).ids(),
            !old(self)@.contains_key(id@) ==> final(self).ids() == old(self).ids().push(id@),
    {
        proof {
            use_type_invariant(&*self);
        }
        let ghost before = *self;
        let found = self.find(&id);
        let mut taken = PeerTable::new();
        std::mem::swap(self, &mut taken);
        let PeerTable { mut ids, mut peers } = taken;
        match found {
            Some(i) => {
                proof {
                    before.lemma_entry(i as int);
                }
                let previous = peers.remove(i);
                peers.insert(i, peer);
                let ghost after = PeerTable { ids: ids, peers: peers };
                proof {
                    assert(after.peers@ =~= before.peers@.update(i as int, peer));
                    assert forall|j: int| 0 <= j < after.size() implies #[trigger] after.id_at(j)
                        == before.id_at(j) by {}
                    assert(after.ids() =~= before.ids());
                    assert forall|k: Seq<char>| #[trigger]
                        after@.contains_key(k) == before@.insert(id@, peer).contains_key(k) by {
                        if before.has(k) {
                            let j: int = before.slot(k);
                            assert(after.id_at(j) == k);
                        }
                        if after.has(k) {
                            let j: int = after.slot(k);
                            assert(before.id_at(j) == k);
                        }
                    }
                    assert forall|k: Seq<char>| #[trigger]
                        after@.contains_key(k) implies after@[k] == before@.insert(id@, peer)[k] by {
                        let j: int = after.slot(k);
                        after.lemma_entry(j);
                        if k != id@ {
                            before.lemma_entry(j);
                        }
                    }
                    assert(after@ =~= before@.insert(id@, peer));
                }
                *self = PeerTable { ids, peers };
                Some(previous)
            },
            None => {
                let ghost key = id@;
                ids.push(id);
                peers.push(peer);
                let ghost after = PeerTable { ids: ids, peers: peers };
                proof {
                    let n: int = before.size() as int;
                    assert(after.id_at(n) == key);
                    assert forall|j: int| 0 <= j < n implies #[trigger] after.id_at(j)
                        == before.id_at(j) && after.peer_at(j) == before.peer_at(j) by {}
                    assert forall|i: int, j: int|
                        0 <= i < j < after.ids.len() implies #[trigger] after.id_at(i)
                        != #[trigger] after.id_at(j) by {
                        if j == n {
                            assert(before.id_at(i) == after.id_at(i));
                        } else {
                            assert(before.id_at(i) != before.id_at(j));
                        }
                    }
                    assert(after.ids() =~= before.ids().push(key));
                    assert forall|k: Seq<char>| #[trigger]
                        after@.contains_key(k) == before@.insert(key, peer).contains_key(k) by {
                        if before.has(k) {
                            let j: int = before.slot(k);
                            assert(after.id_at(j) == k);
                        }
                        if after.has(k) {
                            let j: int = after.slot(k);
                            if j < n {
                                assert(before.id_at(j) == k);
                            }
                        }
                    }
                    assert forall|k: Seq<char>| #[trigger]
                        after@.contains_key(k) implies after@[k] == before@.insert(key, peer)[k] by {
                        let j: int = after.slot(k);
                        after.lemma_entry(j);
                        if k != key {
                            if j == n {
                                assert(after.id_at(n) == key);
                            }
                            before.lemma_entry(j);
                        }
                    }
                    assert(after@ =~= before@.insert(key, peer));
                }
                *self = PeerTable { ids, peers };
                None
            },
        }
    }

    /// Removes the peer registered for the id `id` and returns it.
    ///
    /// The other entries keep their order.
    pub fn remove(&mut self, id: &str) -> (removed: Option<P>)
        ensures
            final(self)@ == old(self)@.remove(id@),
            removed is Some == old(self)@.contains_key(id@),
            removed matches Some(p) ==> p == old(self)@[id@],
            !old(self)@.contains_key(id@) ==> final(self).ids() == old(self).ids(),
            old(self)@.contains_key(id@) ==> final(self).ids() == old(self).ids().remove(
                old(self).slot(id@),
            ),
    {
        proof {
            use_type_invariant(&*self);
        }
        let ghost before = *self;
        let key = id.to_owned();
        let found = self.find(&key);
        let mut taken = PeerTable::new();
        std::mem::swap(self, &mut taken);
        let PeerTable { mut ids, mut peers } = taken;
        match found {
            Some(i) => {
                proof {
                    before.lemma_entry(i as int);
                }
                ids.remove(i);
                let removed = peers.remove(i);
                let ghost after = PeerTable { ids: ids, peers: peers };
                proof {
                    let i: int = i as int;
                    assert forall|j: int| 0 <= j < after.size() implies #[trigger] after.id_at(j) == (
                    if j < i {
                        before.id_at(j)
                    } else {
                        before.id_at(j + 1)
                    }) && after.peer_at(j) == (if j < i {
                        before.peer_at(j)
                    } else {
                        before.peer_at(j + 1)
                    }) by {}
                    assert forall|a: int, b: int|
                        0 <= a < b < after.ids.len() implies #[trigger] after.id_at(a)
                        != #[trigger] after.id_at(b) by {
                        let a2: int = if a < i {
                            a
                        } else {
                            a + 1
                        };
                        let b2: int = if b < i {
                            b
                        } else {
                            b + 1
                        };
                        assert(before.id_at(a2) != before.id_at(b2));
                    }
                    assert(after.ids() =~= before.ids().remove(i));
                    assert forall|k: Seq<char>| #[trigger]
                        after@.contains_key(k) == before@.remove(id@).contains_key(k) by {
                        if after.has(k) {
                            let j: int = after.slot(k);
                            let j2: int = if j < i {
                                j
                            } else {
                                j + 1
                            };
                            assert(before.id_at(j2) == k);
                            if k == id@ {
                                assert(before.id_at(i) == k);
                                if j2 < i {
                                    assert(before.id_at(j2) != before.id_at(i));
                                } else if i < j2 {
                                    assert(before.id_at(i) != before.id_at(j2));
                                }
                            }
                        }
                        if before.has(k) && k != id@ {
                            let j: int = before.slot(k);
                            assert(j != i);
                            let j2: int = if j < i {
                                j
                            } else {
                                j - 1
                            };
                            assert(after.id_at(j2) == k);
                        }
                    }
                    assert forall|k: Seq<char>| #[trigger]
                        after@.contains_key(k) implies after@[k] == before@.remove(id@)[k] by {
                        let j: int = after.slot(k);
                        after.lemma_entry(j);
                        let j2: int = if j < i {
                            j
                        } else {
                            j + 1
                        };
                        assert(before.id_at(j2) == k);
                        before.lemma_entry(j2);
                    }
                    assert(after@ =~= before@.remove(id@));
                }
                *self = PeerTable { ids, peers };
                Some(removed)
            },
            None => {
                proof {
                    assert(before@.remove(id@) =~= before@);
                }
                *self = PeerTable { ids, peers };
                None
            },
        }
    }
}

impl<P> View for PeerTable<P> {
    type V = Map<Seq<char>, P>;

    /// Each registered id, mapped to its peer.
    closed spec fn view(&self) -> Map<Seq<char>, P> {
        Map::new(|k: Seq<char>| self.has(k), |k: Seq<char>| self.peer_at(self.slot(k)))
    }
}

} // verus!
