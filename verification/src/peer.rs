use vstd::prelude::*;

verus! {

/// The address of a remote peer: an IP address and a port, as plain integers.
#[derive(Debug, Clone, Copy, PartialEq, Eq, Structural, Hash)]
pub enum PeerAddr {
    V4 { ip: u32, port: u16 },
    V6 { ip: u128, port: u16, flowinfo: u32, scope_id: u32 },
}

/// A set of peers, kept as a list in which no peer occurs twice.
pub struct PeerSet {
    peers: Vec<PeerAddr>,
}

impl View for PeerSet {
    type V = Set<PeerAddr>;

    open spec fn view(&self) -> Set<PeerAddr> {
        self.members().to_set()
    }
}

impl PeerSet {
    /// The peers in the order in which they joined.
    pub closed spec fn members(&self) -> Seq<PeerAddr> {
        self.peers@
    }

    /// No peer is listed twice.
    pub open spec fn wf(&self) -> bool {
        self.members().no_duplicates()
    }

    /// The empty set.
    pub fn new() -> (s: PeerSet)
        ensures
            s.wf(),
            s.members() == Seq::<PeerAddr>::empty(),
            s@ == Set::<PeerAddr>::empty(),
    {
        let s = PeerSet { peers: Vec::new() };
        assert(s@ =~= Set::<PeerAddr>::empty());
        s
    }

    /// The number of peers in the set.
    pub fn len(&self) -> (n: usize)
        ensures
            n == self.members().len(),
    {
        self.peers.len()
    }

    /// The peer at position `i` of the list.
    pub fn get(&self, i: usize) -> (p: PeerAddr)
        requires
            i < self.members().len(),
        ensures
            p == self.members()[i as int],
    {
        self.peers[i]
    }

    /// Whether `peer` is in the set.
    pub fn contains(&self, peer: &PeerAddr) -> (b: bool)
        ensures
            b == self@.contains(*peer),
    {
        let n = self.peers.len();
        let mut i: usize = 0;
        while i < n
            invariant
                n == self.peers@.len(),
                i <= n,
                forall|j: int| 0 <= j < i ==> self.peers@[j] != *peer,
            decreases n - i,
        {
            if self.peers[i] == *peer {
                assert(self.members()[i as int] == *peer);
                return true;
            }
            i = i + 1;
        }
        proof {
            if self@.contains(*peer) {
                let k = choose|k: int| 0 <= k < self.peers@.len() && self.peers@[k] == *peer;
                assert(self.peers@[k] == *peer);
            }
        }
        false
    }

    /// Adds `peer` to the set; a peer that is already in it stays where it is.
    pub fn insert(&mut self, peer: PeerAddr)
        requires
            old(self).wf(),
        ensures
            final(self).wf(),
            final(self)@ == old(self)@.insert(peer),
    {
        if !self.contains(&peer) {
            self.peers.push(peer);
            assert(self@ =~= old(self)@.insert(peer)) by {
                assert forall|x: PeerAddr| self@.contains(x) <==> old(self)@.insert(peer).contains(x) by {
                    if old(self)@.contains(x) {
                        let k = choose|k: int| 0 <= k < old(self).peers@.len() && old(self).peers@[k] == x;
                        assert(self.peers@[k] == x);
                    }
                    if x == peer {
                        assert(self.peers@[self.peers@.len() - 1] == x);
                    }
                }
            }
        } else {
            assert(self@ =~= old(self)@.insert(peer));
        }
    }

    /// Takes `peer` out of the set; the others keep their order.
    pub fn remove(&mut self, peer: &PeerAddr)
        requires
            old(self).wf(),
        ensures
            final(self).wf(),
            final(self)@ == old(self)@.remove(*peer),
    {
        let ghost before = self.peers@;
        let mut kept: Vec<PeerAddr> = Vec::new();
        let n = self.peers.len();
        let mut i: usize = 0;
        while i < n
            invariant
                n == before.len(),
                self.peers@ == before,
                before.no_duplicates(),
                i <= n,
                kept@.no_duplicates(),
                forall|x: PeerAddr| kept@.contains(x) <==> (exists|j: int| 0 <= j < i && before[j] == x && x != *peer),
            decreases n - i,
        {
            let p = self.peers[i];
            if p != *peer {
                proof {
                    assert(!kept@.contains(p)) by {
                        if kept@.contains(p) {
                            let j = choose|j: int| 0 <= j < i && before[j] == p && p != *peer;
                            assert(before[j] == before[i as int]);
                        }
                    }
                }
                let ghost prev = kept@;
                kept.push(p);
                proof {
                    assert forall|x: PeerAddr| kept@.contains(x) <==> (exists|j: int| 0 <= j < i + 1 && before[j] == x && x != *peer) by {
                        if kept@.contains(x) {
                            let k = choose|k: int| 0 <= k < kept@.len() && kept@[k] == x;
                            if k < kept@.len() - 1 {
                                assert(prev.contains(x)) by { assert(prev[k] == x); }
                            } else {
                                assert(before[i as int] == x);
                            }
                        }
                        if exists|j: int| 0 <= j < i + 1 && before[j] == x && x != *peer {
                            let j = choose|j: int| 0 <= j < i + 1 && before[j] == x && x != *peer;
                            if j < i {
                                assert(exists|j: int| 0 <= j < i && before[j] == x && x != *peer);
                                assert(prev.contains(x));
                                let k = choose|k: int| 0 <= k < prev.len() && prev[k] == x;
                                assert(kept@[k] == x);
                            } else {
                                assert(kept@[kept@.len() - 1] == x);
                            }
                        }
                    }
                }
            } else {
                proof {
                    assert forall|x: PeerAddr| kept@.contains(x) <==> (exists|j: int| 0 <= j < i + 1 && before[j] == x && x != *peer) by {
                        if exists|j: int| 0 <= j < i + 1 && before[j] == x && x != *peer {
                            let j = choose|j: int| 0 <= j < i + 1 && before[j] == x && x != *peer;
                            assert(j < i);
                        }
                    }
                }
            }
            i = i + 1;
        }
        self.peers = kept;
        assert(self@ =~= old(self)@.remove(*peer)) by {
            assert forall|x: PeerAddr| self@.contains(x) <==> old(self)@.remove(*peer).contains(x) by {
                if old(self)@.remove(*peer).contains(x) {
                    let k = choose|k: int| 0 <= k < before.len() && before[k] == x;
                    assert(exists|j: int| 0 <= j < n && before[j] == x && x != *peer);
                }
            }
        }
    }
}

} // verus!
