//! Admission control: every peer that tells of itself waits for the application's
//! verdict before it is let into gossip and routing.
//!
//! A peer's way through: its identity event is received; unless the event is
//! malformed, a request goes to the application and the peer awaits the verdict
//! under a ticket; the verdict, or the loss of the channel it was to come on, ends
//! the wait. Requests pending at the same time do not wait for each other.

use crate::stack::{multiaddr_text, peer_id_text};
use crate::types::{connection_request, ConversionError, IdentifyEvent, ReceivedConnection};
use vstd::prelude::*;
use vstd::set_lib::*;

verus! {

/// A peer that awaits its verdict.
pub struct PendingAuthorization {
    ticket: u64,
    peer: Vec<u8>,
    observed_addr: Vec<u8>,
}

/// A peer that awaits its verdict, as plain values: its identifier and the address it
/// was seen at, both in binary form.
pub struct PendingView {
    pub peer: Seq<u8>,
    pub observed_addr: Seq<u8>,
}

/// What an identity event leads to.
#[derive(Debug, PartialEq, Eq)]
pub enum AuthorizationStep {
    /// The peer awaits its verdict under `ticket`; `request` is to go to the application.
    AwaitingVerdict { ticket: u64, request: ReceivedConnection },
    /// The event was malformed: no verdict is asked for.
    Failed(ConversionError),
}

/// How a wait for a verdict ended.
#[derive(Debug, PartialEq, Eq)]
pub enum Resolution {
    /// The application accepted the peer.
    Admitted { peer: Vec<u8>, observed_addr: Vec<u8> },
    /// The application turned the peer down.
    Rejected,
    /// The channel closed without a verdict.
    Failed,
    /// Nothing awaited a verdict under the ticket.
    Unknown,
}

/// `Resolution` as plain values.
pub enum ResolutionView {
    Admitted { peer: Seq<u8>, observed_addr: Seq<u8> },
    Rejected,
    Failed,
    Unknown,
}

impl View for Resolution {
    type V = ResolutionView;

    open spec fn view(&self) -> ResolutionView {
        match self {
            Resolution::Admitted { peer, observed_addr } => ResolutionView::Admitted {
                peer: peer@,
                observed_addr: observed_addr@,
            },
            Resolution::Rejected => ResolutionView::Rejected,
            Resolution::Failed => ResolutionView::Failed,
            Resolution::Unknown => ResolutionView::Unknown,
        }
    }
}

/// How the wait under `ticket` ends on `verdict`, `None` standing for a channel that
/// closed without one.
pub open spec fn resolution(
    pending: Map<u64, PendingView>,
    ticket: u64,
    verdict: Option<bool>,
) -> ResolutionView {
    if !pending.contains_key(ticket) {
        ResolutionView::Unknown
    } else {
        match verdict {
            Some(true) => ResolutionView::Admitted {
                peer: pending[ticket].peer,
                observed_addr: pending[ticket].observed_addr,
            },
            Some(false) => ResolutionView::Rejected,
            None => ResolutionView::Failed,
        }
    }
}

/// Whether `ticket` is the least number that is no ticket in use.
pub open spec fn is_free_ticket(pending: Map<u64, PendingView>, ticket: u64) -> bool {
    &&& !pending.contains_key(ticket)
    &&& forall|t: u64| t < ticket ==> pending.contains_key(t)
}

/// No two of `pending` wait under the same ticket.
spec fn distinct_waits(pending: Seq<PendingAuthorization>) -> bool {
    forall|i: int, j: int| 0 <= i < j < pending.len() ==> pending[i].ticket != pending[j].ticket
}

/// The identifier and the address of `wait` decode.
spec fn decodes(wait: PendingAuthorization) -> bool {
    peer_id_text(wait.peer@) is Some && multiaddr_text(wait.observed_addr@) is Some
}

/// The identifier and the address of each of `pending` decode: nobody waits who did
/// not tell of himself in good order.
spec fn all_decode(pending: Seq<PendingAuthorization>) -> bool {
    forall|i: int| 0 <= i < pending.len() ==> decodes(#[trigger] pending[i])
}

/// The peers that await a verdict, no ticket twice. Each of them told of itself in
/// good order: its identifier and its address decode.
pub struct ConnectionAuthorizer {
    pending: Vec<PendingAuthorization>,
}

impl View for ConnectionAuthorizer {
    type V = Map<u64, PendingView>;

    /// Who awaits a verdict under each ticket.
    closed spec fn view(&self) -> Map<u64, PendingView> {
        Map::new(
            |ticket: u64| self.position(ticket) is Some,
            |ticket: u64|
                PendingView {
                    peer: self.pending[self.position(ticket)->0].peer@,
                    observed_addr: self.pending[self.position(ticket)->0].observed_addr@,
                },
        )
    }
}

impl ConnectionAuthorizer {
    /// Where the wait under `ticket` stands, if there is one.
    closed spec fn position(&self, ticket: u64) -> Option<int> {
        if exists|i: int| 0 <= i < self.pending.len() && self.pending[i].ticket == ticket {
            Some(choose|i: int| 0 <= i < self.pending.len() && self.pending[i].ticket == ticket)
        } else {
            None
        }
    }

    /// No ticket is in use twice, and whoever waits told of himself in good order.
    #[verifier::type_invariant]
    closed spec fn well_formed(&self) -> bool {
        distinct_waits(self.pending@) && all_decode(self.pending@)
    }

    /// An authorizer with nobody waiting.
    pub fn new() -> (authorizer: ConnectionAuthorizer)
        ensures
            authorizer@ == Map::<u64, PendingView>::empty(),
    {
        ConnectionAuthorizer { pending: Vec::new() }
    }

    /// Index of the wait under `ticket`, if there is one.
    fn find(&self, ticket: u64) -> (found: Option<usize>)
        ensures
            match found {
                Some(i) => i < self.pending.len() && self.position(ticket) == Some(i as int),
                None => self.position(ticket) is None,
            },
    {
        proof {
            use_type_invariant(self);
        }
        let mut i: usize = 0;
        while i < self.pending.len()
            invariant
                self.well_formed(),
                i <= self.pending.len(),
                forall|j: int| 0 <= j < i ==> self.pending[j].ticket != ticket,
            decreases self.pending.len() - i,
        {
            if self.pending[i].ticket == ticket {
                return Some(i);
            }
            i = i + 1;
        }
        None
    }

    /// Whether a peer awaits its verdict under `ticket`.
    pub fn is_pending(&self, ticket: u64) -> (waiting: bool)
        ensures
            waiting == self@.contains_key(ticket),
    {
        self.find(ticket).is_some()
    }

    /// The number of peers that await a verdict.
    pub fn len(&self) -> (count: usize)
        ensures
            self@.dom().finite(),
            count == self@.dom().len(),
    {
        proof {
            use_type_invariant(self);
            self.lemma_tickets();
        }
        self.pending.len()
    }

    /// The tickets in use, as integers.
    closed spec fn tickets(&self) -> Seq<int> {
        Seq::new(self.pending.len() as nat, |i: int| self.pending[i].ticket as int)
    }

    /// The tickets in use are as many as the waits.
    proof fn lemma_tickets(&self)
        requires
            self.well_formed(),
        ensures
            self@.dom().finite(),
            self@.dom().len() == self.pending.len(),
    {
        let used = Seq::new(self.pending.len() as nat, |i: int| self.pending[i].ticket);
        assert forall|t: u64| self@.dom().contains(t) <==> used.to_set().contains(t) by {
            if self@.dom().contains(t) {
                assert(used[self.position(t)->0] == t);
            }
        }
        assert(self@.dom() =~= used.to_set());
        used.unique_seq_to_set();
    }

    /// Where every number below `bound` is a ticket in use, `bound` does not exceed
    /// the number of waits.
    proof fn lemma_room(&self, bound: int)
        requires
            0 <= bound,
            forall|t: int| 0 <= t < bound ==> self.tickets().contains(t),
        ensures
            bound <= self.pending.len(),
    {
        let used = self.tickets();
        let below = set_int_range(0, bound);
        lemma_int_range(0, bound);
        used.lemma_cardinality_of_set();
        lemma_len_subset(below, used.to_set());
    }

    /// The least number that is no ticket in use.
    fn free_ticket(&self) -> (ticket: u64)
        ensures
            !self@.contains_key(ticket),
            forall|t: u64| t < ticket ==> self@.contains_key(t),
    {
        let mut candidate: u64 = 0;
        loop
            invariant
                candidate <= self.pending.len(),
                forall|t: int| 0 <= t < candidate ==> self.tickets().contains(t),
            decreases self.pending.len() - candidate,
        {
            match self.find(candidate) {
                None => {
                    assert forall|t: u64| t < candidate implies self@.contains_key(t) by {
                        assert(self.tickets().contains(t as int));
                    }
                    return candidate;
                },
                Some(i) => {
                    proof {
                        assert forall|t: int| 0 <= t < candidate + 1 implies self.tickets().contains(
                            t,
                        ) by {
                            if t == candidate {
                                assert(self.tickets()[i as int] == t);
                            }
                        }
                        self.lemma_room(candidate + 1);
                    }
                    candidate = candidate + 1;
                },
            }
        }
    }

    /// Takes an identity event in. A peer that has told of itself in good order awaits
    /// its verdict from now on, under the least ticket that was not in use, and exactly
    /// one request for it is returned. A malformed event is reported and leaves nobody
    /// waiting.
    pub fn begin(&mut self, event: IdentifyEvent) -> (step: AuthorizationStep)
        ensures
            match step {
                AuthorizationStep::AwaitingVerdict { ticket, request } => {
                    &&& connection_request(event) == Ok::<_, ConversionError>(request@)
                    &&& event matches IdentifyEvent::Received { peer_id, info }
                    &&& is_free_ticket(old(self)@, ticket)
                    &&& final(self)@ == old(self)@.insert(
                        ticket,
                        PendingView { peer: peer_id@, observed_addr: info.observed_addr@ },
                    )
                },
                AuthorizationStep::Failed(e) => {
                    &&& connection_request(event) == Err::<crate::types::ReceivedConnectionView, _>(e)
                    &&& final(self)@ == old(self)@
                },
            },
    {
        let ghost before = *self;
        let (peer, observed_addr) = match &event {
            IdentifyEvent::Received { peer_id, info } => (
                peer_id.clone(),
                info.observed_addr.clone(),
            ),
            _ => (Vec::new(), Vec::new()),
        };
        match ReceivedConnection::try_from(event) {
            Ok(request) => {
                let ticket = self.free_ticket();
                proof {
                    use_type_invariant(&*self);
                }
                let mut pending: Vec<PendingAuthorization> = Vec::new();
                std::mem::swap(&mut self.pending, &mut pending);
                pending.push(PendingAuthorization { ticket, peer, observed_addr });
                std::mem::swap(&mut self.pending, &mut pending);
                proof {
                    let last = before.pending.len() as int;
                    assert forall|t: u64| t != ticket implies before.position(t) == self.position(
                        t,
                    ) by {
                        if before.position(t) is Some {
                            assert(self.pending[before.position(t)->0].ticket == t);
                        }
                    }
                    assert(self.pending[last].ticket == ticket);
                }
                AuthorizationStep::AwaitingVerdict { ticket, request }
            },
            Err(e) => AuthorizationStep::Failed(e),
        }
    }

    /// Ends the wait under `ticket`. `verdict` is the application's answer, `None`
    /// where the channel closed without one. Nobody awaits a verdict under `ticket`
    /// afterwards; every other wait goes on untouched. The identifier and the address
    /// of an accepted peer decode.
    pub fn resolve(&mut self, ticket: u64, verdict: Option<bool>) -> (outcome: Resolution)
        ensures
            final(self)@ == old(self)@.remove(ticket),
            outcome@ == resolution(old(self)@, ticket, verdict),
            outcome matches Resolution::Admitted { peer, observed_addr } ==> {
                &&& peer_id_text(peer@) is Some
                &&& multiaddr_text(observed_addr@) is Some
            },
    {
        let ghost before = *self;
        match self.find(ticket) {
            None => Resolution::Unknown,
            Some(i) => {
                proof {
                    use_type_invariant(&*self);
                }
                let mut pending: Vec<PendingAuthorization> = Vec::new();
                std::mem::swap(&mut self.pending, &mut pending);
                let entry = pending.swap_remove(i);
                std::mem::swap(&mut self.pending, &mut pending);
                proof {
                    let last = before.pending.len() - 1;
                    assert forall|t: u64| t != ticket implies (before.position(t) is Some
                        <==> self.position(t) is Some) && (before.position(t) is Some
                        ==> self.pending[self.position(t)->0] == before.pending[before.position(
                        t,
                    )->0]) by {
                        if before.position(t) is Some {
                            let k = before.position(t)->0;
                            let to = if k == last { i as int } else { k };
                            assert(self.pending[to].ticket == t);
                        }
                        if self.position(t) is Some {
                            let k = self.position(t)->0;
                            let from = if k == i { last } else { k };
                            assert(before.pending[from].ticket == t);
                        }
                    }
                }
                match verdict {
                    Some(true) => Resolution::Admitted {
                        peer: entry.peer,
                        observed_addr: entry.observed_addr,
                    },
                    Some(false) => Resolution::Rejected,
                    None => Resolution::Failed,
                }
            },
        }
    }
}

/// A wait ends once and in one way. Under a ticket in use, a verdict of yes lets the
/// peer in, a verdict of no turns it down, and a closed channel fails it: one of
/// the three, whichever the verdict. After that the ticket is out of use, and whatever
/// comes for it again finds nothing to end.
pub proof fn lemma_one_outcome(
    pending: Map<u64, PendingView>,
    ticket: u64,
    verdict: Option<bool>,
    again: Option<bool>,
)
    requires
        pending.contains_key(ticket),
    ensures
        resolution(pending, ticket, verdict) is Admitted <==> verdict == Some(true),
        resolution(pending, ticket, verdict) is Rejected <==> verdict == Some(false),
        resolution(pending, ticket, verdict) is Failed <==> verdict is None,
        resolution(pending, ticket, verdict) !is Unknown,
        resolution(pending.remove(ticket), ticket, again) is Unknown,
{
}

/// Waits do not depend on each other. While one peer awaits its verdict, the wait of
/// another ends as it would have ended alone, and leaves the first peer waiting as
/// it was. In whichever order two waits end, the same peers are left waiting.
pub proof fn lemma_waits_independent(
    pending: Map<u64, PendingView>,
    waiting: u64,
    other: u64,
    verdict: Option<bool>,
)
    requires
        waiting != other,
        pending.contains_key(waiting),
        pending.contains_key(other),
    ensures
        resolution(pending, other, verdict) !is Unknown,
        resolution(pending, other, verdict) == resolution(pending.remove(waiting), other, verdict),
        pending.remove(other).contains_key(waiting),
        pending.remove(other)[waiting] == pending[waiting],
        pending.remove(other).remove(waiting) == pending.remove(waiting).remove(other),
{
}

} // verus!
