//! What the node does with the events of its networking stack, and with the verdicts
//! of the application.

use crate::authorizer::{is_free_ticket, resolution, AuthorizationStep, PendingView};
use crate::authorizer::{Resolution, ResolutionView};
use crate::stack::{explicit_peers, gossipsub_add_explicit_peer, kademlia_add_address};
use crate::stack::{peer_id_base58, peer_id_text, subscriptions, Gossipsub};
use crate::stack::{Kademlia, RoutingOutcome};
use crate::types::{connection_request, ConversionError, IdentifyEvent};
use crate::types::{ReceivedConnection, ReceivedConnectionView, ReceivedMessage, ReceivedMessageView};
use crate::P2pNode;
use vstd::prelude::*;

verus! {

/// A gossip message as it arrives.
#[derive(Debug, PartialEq, Eq)]
pub struct GossipMessage {
    /// The publisher's identifier in binary form; absent for an anonymous message.
    pub source: Option<Vec<u8>>,
    /// The payload.
    pub data: Vec<u8>,
    /// The identifier of the topic.
    pub topic: String,
}

/// An event of the networking stack, as far as the node makes use of it.
#[derive(Debug, PartialEq, Eq)]
pub enum SwarmEvent {
    /// The node listens on a new address, given in binary form.
    NewListenAddr { address: Vec<u8> },
    /// A gossip message has arrived.
    Message(GossipMessage),
    /// Something happened in the identity exchange.
    Identify(IdentifyEvent),
    /// Anything else.
    Other,
}

/// What is to be done about an event.
#[derive(Debug, PartialEq, Eq)]
pub enum EventOutcome {
    /// Nothing.
    Ignored,
    /// The node listens on this address.
    Listening { address: Vec<u8> },
    /// The message came on a topic the node has no record of and is dropped.
    Dropped,
    /// The message goes to the application.
    Deliver(ReceivedMessage),
    /// The request goes to the application, whose verdict is awaited under the ticket.
    Authorize { ticket: u64, request: ReceivedConnection },
    /// The event was malformed and is passed over.
    Malformed(ConversionError),
}

/// `EventOutcome` as plain values.
pub enum EventOutcomeView {
    Ignored,
    Listening { address: Seq<u8> },
    Dropped,
    Deliver(ReceivedMessageView),
    Authorize { ticket: u64, request: ReceivedConnectionView },
    Malformed(ConversionError),
}

impl View for EventOutcome {
    type V = EventOutcomeView;

    open spec fn view(&self) -> EventOutcomeView {
        match self {
            EventOutcome::Ignored => EventOutcomeView::Ignored,
            EventOutcome::Listening { address } => EventOutcomeView::Listening { address: address@ },
            EventOutcome::Dropped => EventOutcomeView::Dropped,
            EventOutcome::Deliver(message) => EventOutcomeView::Deliver(message@),
            EventOutcome::Authorize { ticket, request } => EventOutcomeView::Authorize {
                ticket: *ticket,
                request: request@,
            },
            EventOutcome::Malformed(e) => EventOutcomeView::Malformed(*e),
        }
    }
}

/// What a verdict did to the node.
#[derive(Clone, Copy, Debug, PartialEq, Eq)]
pub enum Admission {
    /// The peer was let in: the gossip layer has it as an explicit peer, the node has
    /// it in its set, and the routing table was given its address. `fresh` tells
    /// whether the peer was new to the node's set, `routing` what the routing table
    /// made of the address.
    Admitted { fresh: bool, routing: RoutingOutcome },
    /// The peer was turned down; nothing changed.
    Rejected,
    /// Nothing awaited a verdict under the ticket; nothing changed.
    Unknown,
}

/// Why the node cannot go on.
#[derive(Clone, Copy, Debug, PartialEq, Eq)]
pub enum FatalError {
    /// The channel on which a verdict was to come closed without one.
    AuthorizationClosed,
}

/// What is to be done about a gossip message, given the topics on record: dropped
/// where its topic is not on record, else delivered under the topic's name.
pub open spec fn dispatched(topics: Map<Seq<char>, Seq<char>>, message: GossipMessage) -> EventOutcomeView {
    if !topics.contains_key(message.topic@) {
        EventOutcomeView::Dropped
    } else {
        match message.source {
            None => EventOutcomeView::Deliver(
                ReceivedMessageView {
                    source: None,
                    data: message.data@,
                    topic: topics[message.topic@],
                },
            ),
            Some(source) => match peer_id_text(source@) {
                Some(text) => EventOutcomeView::Deliver(
                    ReceivedMessageView {
                        source: Some(text),
                        data: message.data@,
                        topic: topics[message.topic@],
                    },
                ),
                None => EventOutcomeView::Malformed(ConversionError::InvalidPeerId),
            },
        }
    }
}

/// The set of peers after the verdict that came for `ticket`: the peer that awaited it
/// is in the set where the verdict was yes; in every other case the set is as before.
pub open spec fn peers_after(
    peers: Set<Seq<u8>>,
    pending: Map<u64, PendingView>,
    ticket: u64,
    verdict: Option<bool>,
) -> Set<Seq<u8>> {
    match resolution(pending, ticket, verdict) {
        ResolutionView::Admitted { peer, observed_addr } => peers.insert(peer),
        _ => peers,
    }
}

impl P2pNode {
    /// Decides what becomes of a gossip message. A message on a topic the node has no
    /// record of is dropped. Any other is delivered under the name recorded for its
    /// topic, with its payload as it came and its publisher in base58, unless the
    /// publisher's identifier does not decode.
    pub fn dispatch_message(&self, message: GossipMessage) -> (outcome: EventOutcome)
        ensures
            outcome@ == dispatched(self.gossipsub_topics@, message),
    {
        let topic = match self.gossipsub_topics.resolve(message.topic.as_str()) {
            Some(name) => name,
            None => {
                return EventOutcome::Dropped;
            },
        };
        let source = match message.source {
            None => None,
            Some(bytes) => match peer_id_base58(bytes.as_slice()) {
                Some(text) => Some(text),
                None => {
                    return EventOutcome::Malformed(ConversionError::InvalidPeerId);
                },
            },
        };
        EventOutcome::Deliver(ReceivedMessage { source, data: message.data, topic })
    }

    /// Decides what is to be done about an event of the networking stack.
    ///
    /// A new listening address is reported. A gossip message is dispatched. A peer
    /// that tells of itself awaits the application's verdict from now on, under the
    /// least ticket that was not in use, and exactly one request for it is returned;
    /// a peer whose information is malformed is passed over. Anything else, any other
    /// event of the identity exchange among it, is ignored. Only a peer that newly awaits its verdict changes the
    /// node.
    pub fn handle_swarm_event(&mut self, event: SwarmEvent) -> (outcome: EventOutcome)
        ensures
            *final(self) == (P2pNode { authorizer: final(self).authorizer, ..*old(self) }),
            match event {
                SwarmEvent::NewListenAddr { address } => {
                    &&& outcome@ == EventOutcomeView::Listening { address: address@ }
                    &&& final(self).authorizer@ == old(self).authorizer@
                },
                SwarmEvent::Message(message) => {
                    &&& outcome@ == dispatched(old(self).gossipsub_topics@, message)
                    &&& final(self).authorizer@ == old(self).authorizer@
                },
                SwarmEvent::Identify(identify) => if identify !is Received {
                    &&& outcome@ == EventOutcomeView::Ignored
                    &&& final(self).authorizer@ == old(self).authorizer@
                } else {
                    match connection_request(identify) {
                        Ok(request) => {
                            &&& outcome matches EventOutcome::Authorize { ticket, request: asked }
                            &&& asked@ == request
                            &&& identify matches IdentifyEvent::Received { peer_id, info }
                            &&& is_free_ticket(old(self).authorizer@, ticket)
                            &&& final(self).authorizer@ == old(self).authorizer@.insert(
                                ticket,
                                PendingView { peer: peer_id@, observed_addr: info.observed_addr@ },
                            )
                        },
                        Err(e) => {
                            &&& outcome@ == EventOutcomeView::Malformed(e)
                            &&& final(self).authorizer@ == old(self).authorizer@
                        },
                    }
                },
                SwarmEvent::Other => {
                    &&& outcome@ == EventOutcomeView::Ignored
                    &&& final(self).authorizer@ == old(self).authorizer@
                },
            },
    {
        match event {
            SwarmEvent::NewListenAddr { address } => EventOutcome::Listening { address },
            SwarmEvent::Message(message) => self.dispatch_message(message),
            SwarmEvent::Identify(identify) => {
                let told = match &identify {
                    IdentifyEvent::Received { .. } => true,
                    _ => false,
                };
                if !told {
                    return EventOutcome::Ignored;
                }
                match self.authorizer.begin(identify) {
                    AuthorizationStep::AwaitingVerdict { ticket, request } => EventOutcome::Authorize {
                        ticket,
                        request,
                    },
                    AuthorizationStep::Failed(e) => EventOutcome::Malformed(e),
                }
            },
            SwarmEvent::Other => EventOutcome::Ignored,
        }
    }

    /// Applies the verdict that came for `ticket`, `None` where the channel closed
    /// without one, and ends the wait under `ticket`.
    ///
    /// An accepted peer is handed to the gossip layer as an explicit peer, put into
    /// the node's set of peers, and its observed address is handed to the routing
    /// table, in this order. What the routing table makes of the address is reported
    /// and changes nothing else. In every other case neither the gossip layer nor the
    /// routing table is touched: a peer turned down changes nothing, and a closed
    /// channel is fatal.
    pub fn handle_verdict(
        &mut self,
        gossipsub: &mut Gossipsub,
        kademlia: &mut Kademlia,
        ticket: u64,
        verdict: Option<bool>,
    ) -> (done: Result<Admission, FatalError>)
        ensures
            *final(self) == (P2pNode {
                authorizer: final(self).authorizer,
                peers: final(self).peers,
                ..*old(self)
            }),
            final(self).authorizer@ == old(self).authorizer@.remove(ticket),
            final(self).peers@ == peers_after(
                old(self).peers@,
                old(self).authorizer@,
                ticket,
                verdict,
            ),
            resolution(old(self).authorizer@, ticket, verdict) !is Admitted ==> {
                &&& *final(gossipsub) == *old(gossipsub)
                &&& *final(kademlia) == *old(kademlia)
            },
            match resolution(old(self).authorizer@, ticket, verdict) {
                ResolutionView::Admitted { peer, observed_addr } => {
                    &&& done matches Ok(Admission::Admitted { fresh, routing })
                    &&& fresh == !old(self).peers@.contains(peer)
                    &&& peer_id_text(peer) is Some
                    &&& explicit_peers(*final(gossipsub)) == explicit_peers(*old(gossipsub)).insert(
                        peer_id_text(peer)->0,
                    )
                    &&& subscriptions(*final(gossipsub)) == subscriptions(*old(gossipsub))
                },
                ResolutionView::Rejected => done == Ok::<_, FatalError>(Admission::Rejected),
                ResolutionView::Failed => done == Err::<Admission, _>(
                    FatalError::AuthorizationClosed,
                ),
                ResolutionView::Unknown => done == Ok::<_, FatalError>(Admission::Unknown),
            },
    {
        match self.authorizer.resolve(ticket, verdict) {
            Resolution::Admitted { peer, observed_addr } => {
                gossipsub_add_explicit_peer(gossipsub, peer.as_slice());
                let fresh = self.peers.insert(peer.clone());
                let routing = kademlia_add_address(
                    kademlia,
                    peer.as_slice(),
                    observed_addr.as_slice(),
                );
                Ok(Admission::Admitted { fresh, routing })
            },
            Resolution::Rejected => Ok(Admission::Rejected),
            Resolution::Failed => Err(FatalError::AuthorizationClosed),
            Resolution::Unknown => Ok(Admission::Unknown),
        }
    }
}

/// A message on a topic without a record is dropped and never delivered. A message
/// on a recorded topic is never dropped, and where it is delivered, it is delivered
/// under the name recorded for its topic, with its payload as it came.
pub proof fn lemma_dispatch_by_record(topics: Map<Seq<char>, Seq<char>>, message: GossipMessage)
    ensures
        !topics.contains_key(message.topic@) ==> dispatched(topics, message) is Dropped,
        topics.contains_key(message.topic@) ==> dispatched(topics, message) !is Dropped,
        topics.contains_key(message.topic@) && message.source is None ==> dispatched(
            topics,
            message,
        ) is Deliver,
        dispatched(topics, message) matches EventOutcomeView::Deliver(delivered) ==> {
            &&& topics.contains_key(message.topic@)
            &&& delivered.topic == topics[message.topic@]
            &&& delivered.data == message.data@
        },
{
}

/// A verdict of yes leaves the peer in the set of peers. A verdict of no leaves the
/// set as it was, so that a peer that was not in it is not in it afterwards.
pub proof fn lemma_verdict_decides_membership(
    peers: Set<Seq<u8>>,
    pending: Map<u64, PendingView>,
    ticket: u64,
)
    requires
        pending.contains_key(ticket),
    ensures
        peers_after(peers, pending, ticket, Some(true)).contains(pending[ticket].peer),
        peers_after(peers, pending, ticket, Some(false)) == peers,
        !peers.contains(pending[ticket].peer) ==> !peers_after(
            peers,
            pending,
            ticket,
            Some(false),
        ).contains(pending[ticket].peer),
{
}

/// The verdicts for two peers may come in either order: the same peers are let in.
/// In particular a verdict is applied all the same while another is outstanding.
pub proof fn lemma_verdicts_commute(
    peers: Set<Seq<u8>>,
    pending: Map<u64, PendingView>,
    first: u64,
    first_verdict: Option<bool>,
    second: u64,
    second_verdict: Option<bool>,
)
    requires
        first != second,
        pending.contains_key(first),
        pending.contains_key(second),
    ensures
        peers_after(
            peers_after(peers, pending, first, first_verdict),
            pending.remove(first),
            second,
            second_verdict,
        ) == peers_after(
            peers_after(peers, pending, second, second_verdict),
            pending.remove(second),
            first,
            first_verdict,
        ),
        peers_after(peers, pending, second, second_verdict) == peers_after(
            peers,
            pending.remove(first),
            second,
            second_verdict,
        ),
{
}

} // verus!
