//! The peers a node has accepted, each by the bytes of its identifier.

use vstd::prelude::*;

verus! {

/// Whether two byte strings hold the same bytes.
pub(crate) fn same_bytes(a: &[u8], b: &[u8]) -> (same: bool)
    ensures
        same == (a@ == b@),
{
    if a.len() != b.len() {
        return false;
    }
    let mut i: usize = 0;
    while i < a.len()
        invariant
            a.len() == b.len(),
            i <= a.len(),
            forall|j: int| 0 <= j < i ==> a[j] == b[j],
        decreases a.len() - i,
    {
        if a[i] != b[i] {
            return false;
        }
        i = i + 1;
    }
    assert(a@ =~= b@);
    true
}

/// The set of accepted peers. It is the node's own record of whom it let in; the
/// networking stack keeps its own.
pub struct PeerSet {
    members: Vec<Vec<u8>>,
}

/// No two of `members` hold the same bytes.
spec fn distinct_peers(members: Seq<Vec<u8>>) -> bool {
    forall|i: int, j: int| 0 <= i < j < members.len() ==> members[i]@ != members[j]@
}

impl View for PeerSet {
    type V = Set<Seq<u8>>;

    /// The identifiers in the set.
    closed spec fn view(&self) -> Set<Seq<u8>> {
        Set::new(|peer: Seq<u8>| self.holds(peer))
    }
}

impl PeerSet {
    /// Some member is `peer`.
    closed spec fn holds(&self, peer: Seq<u8>) -> bool {
        exists|i: int| 0 <= i < self.members.len() && self.members[i]@ == peer
    }

    /// No peer is a member twice.
    #[verifier::type_invariant]
    closed spec fn distinct_members(&self) -> bool {
        distinct_peers(self.members@)
    }

    /// The empty set.
    pub fn new() -> (peers: PeerSet)
        ensures
            peers@ == Set::<Seq<u8>>::empty(),
    {
        PeerSet { members: Vec::new() }
    }

    /// Whether `peer` is in the set.
    pub fn contains(&self, peer: &[u8]) -> (found: bool)
        ensures
            found == self@.contains(peer@),
    {
        let mut i: usize = 0;
        while i < self.members.len()
            invariant
                i <= self.members.len(),
                forall|j: int| 0 <= j < i ==> self.members[j]@ != peer@,
            decreases self.members.len() - i,
        {
            if same_bytes(self.members[i].as_slice(), peer) {
                return true;
            }
            i = i + 1;
        }
        false
    }

    /// Puts `peer` into the set. Returns whether it was new to the set.
    pub fn insert(&mut self, peer: Vec<u8>) -> (fresh: bool)
        ensures
            final(self)@ == old(self)@.insert(peer@),
            fresh == !old(self)@.contains(peer@),
    {
        let ghost before = *self;
        proof {
            use_type_invariant(&*self);
        }
        if self.contains(peer.as_slice()) {
            false
        } else {
            let mut members: Vec<Vec<u8>> = Vec::new();
            std::mem::swap(&mut self.members, &mut members);
            members.push(peer);
            std::mem::swap(&mut self.members, &mut members);
            assert forall|p: Seq<u8>| self.holds(p) <==> (before.holds(p) || p == peer@) by {
                if before.holds(p) {
                    let k = choose|k: int| 0 <= k < before.members.len() && before.members[k]@ == p;
                    assert(self.members[k]@ == p);
                }
                if p == peer@ {
                    assert(self.members[before.members.len() as int]@ == p);
                }
            }
            true
        }
    }

    /// The number of peers in the set.
    pub fn len(&self) -> (count: usize)
        ensures
            self@.finite(),
            count == self@.len(),
    {
        proof {
            use_type_invariant(self);
            let listed = Seq::new(self.members.len() as nat, |i: int| self.members[i]@);
            assert forall|p: Seq<u8>| self@.contains(p) <==> listed.to_set().contains(p) by {
                if self@.contains(p) {
                    let k = choose|k: int| 0 <= k < self.members.len() && self.members[k]@ == p;
                    assert(listed[k] == p);
                }
            }
            assert(self@ =~= listed.to_set());
            listed.unique_seq_to_set();
        }
        self.members.len()
    }
}

} // verus!
