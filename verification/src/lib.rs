//! The verified core of a peer-to-peer node: which topics it is subscribed to, which
//! peers it has let in, and how a peer gets from its first identity event to the
//! application's verdict. The networking stack does the networking; what the node
//! decides is decided here.

use crate::authorizer::{ConnectionAuthorizer, PendingView};
use crate::peers::PeerSet;
use crate::stack::{explicit_peers, gossipsub_publish, subscriptions, topic_hash, Gossipsub};
use crate::stack::{PublishFailure, SubscriptionFailure};
use crate::topics::{after_subscriptions, topic_id, TopicRegistry};
use crate::types::{texts, P2pRequest};
use vstd::prelude::*;

pub mod authorizer;
pub mod behavior;
pub mod builder;
pub mod events;
pub mod hexadecimal;
pub mod peers;
pub mod stack;
pub mod topics;
pub mod traits;
pub mod types;

verus! {

/// The TCP port a node listens on where no listening address is configured.
pub const DEFAULT_LISTENING_PORT: u16 = 1123;

/// The capacity of each channel between the node and the application.
pub const CHANNEL_SIZE: usize = 1000;

/// What a node keeps track of beside its networking stack.
pub struct P2pNode {
    /// The node's keypair.
    pub keypair: libp2p::identity::Keypair,
    /// The peers let in so far.
    pub peers: PeerSet,
    /// The topics subscribed to, by identifier.
    pub gossipsub_topics: TopicRegistry,
    /// The peers that await the application's verdict.
    pub authorizer: ConnectionAuthorizer,
    /// The address the node listens on, in binary form.
    pub listening_address: Vec<u8>,
    /// A certificate by which the node makes itself known, if it has one.
    pub identify_certificate: Option<String>,
    /// The addresses by which the node enters the network, each in binary form.
    pub bootstrap_nodes: Vec<Vec<u8>>,
}

/// What became of a command of the application. No outcome stops the node.
#[derive(Debug, PartialEq, Eq)]
pub enum RequestOutcome {
    /// The message went out under this identifier.
    Published(Vec<u8>),
    /// The gossip layer did not publish the message.
    PublishFailed(PublishFailure),
}

/// The outcome of a broadcast, given the gossip layer's answer to the publication.
pub fn request_outcome(answer: Result<Vec<u8>, PublishFailure>) -> (outcome: RequestOutcome)
    ensures
        outcome == match answer {
            Ok(id) => RequestOutcome::Published(id),
            Err(e) => RequestOutcome::PublishFailed(e),
        },
{
    match answer {
        Ok(id) => RequestOutcome::Published(id),
        Err(e) => RequestOutcome::PublishFailed(e),
    }
}

/// What a command of the application hands to the gossip layer: the identifier made
/// from the topic's name, which is the one that subscribing to the name returns, and
/// the payload as it came.
pub fn publication(req: P2pRequest) -> (handed: (String, Vec<u8>))
    ensures
        req matches P2pRequest::Broadcast(name, data) && handed.0@ == topic_id(name@) && handed.1@
            == data@,
{
    match req {
        P2pRequest::Broadcast(name, data) => (topic_hash(name.as_str()), data),
    }
}

/// What the gossip layer is subscribed to after a subscription to each of `names` in
/// turn, `before` being what it was subscribed to.
pub open spec fn subscribed_to(before: Set<Seq<char>>, names: Seq<Seq<char>>) -> Set<Seq<char>>
    decreases names.len(),
{
    if names.len() == 0 {
        before
    } else {
        subscribed_to(before, names.drop_last()).insert(topic_id(names.last()))
    }
}

/// After a subscription to each of `names`, the gossip layer is subscribed to what it
/// was subscribed to and to the topic of each of the names, and to nothing else.
pub proof fn lemma_subscribed_to(before: Set<Seq<char>>, names: Seq<Seq<char>>, id: Seq<char>)
    ensures
        subscribed_to(before, names).contains(id) <==> before.contains(id) || exists|i: int|
            0 <= i < names.len() && id == topic_id(#[trigger] names[i]),
    decreases names.len(),
{
    if names.len() > 0 {
        let earlier = names.drop_last();
        let last = names.len() - 1;
        lemma_subscribed_to(before, earlier, id);
        if exists|i: int| 0 <= i < earlier.len() && id == topic_id(#[trigger] earlier[i]) {
            let i = choose|i: int| 0 <= i < earlier.len() && id == topic_id(#[trigger] earlier[i]);
            assert(id == topic_id(names[i]));
        }
        if id == topic_id(names.last()) {
            assert(id == topic_id(names[last]));
        }
        if exists|i: int| 0 <= i < names.len() && id == topic_id(#[trigger] names[i]) {
            let i = choose|i: int| 0 <= i < names.len() && id == topic_id(#[trigger] names[i]);
            if i < last {
                assert(id == topic_id(earlier[i]));
            }
        }
    }
}

impl P2pNode {
    /// A node that has let nobody in and has nobody waiting, subscribed to each of
    /// `gossipsub_topics` in turn. The gossip layer of a node allows every topic, so
    /// the construction succeeds. Afterwards the layer is subscribed to each of the
    /// topics beside what it was subscribed to, and its explicit peers are as they
    /// were.
    pub fn new(
        keypair: libp2p::identity::Keypair,
        listening_address: Vec<u8>,
        bootstrap_nodes: Vec<Vec<u8>>,
        identify_certificate: Option<String>,
        gossipsub_topics: Vec<String>,
        gossipsub: &mut Gossipsub,
    ) -> (node: Result<P2pNode, SubscriptionFailure>)
        ensures
            node is Ok,
            node matches Ok(n) ==> {
                {
                    &&& n.keypair == keypair
                    &&& n.listening_address == listening_address
                    &&& n.bootstrap_nodes == bootstrap_nodes
                    &&& n.identify_certificate == identify_certificate
                    &&& n.peers@ == Set::<Seq<u8>>::empty()
                    &&& n.authorizer@ == Map::<u64, PendingView>::empty()
                    &&& n.gossipsub_topics@ == after_subscriptions(
                        Map::empty(),
                        texts(gossipsub_topics@),
                    )
                }
            },
            subscriptions(*final(gossipsub)) == subscribed_to(
                subscriptions(*old(gossipsub)),
                texts(gossipsub_topics@),
            ),
            explicit_peers(*final(gossipsub)) == explicit_peers(*old(gossipsub)),
    {
        let ghost before = *gossipsub;
        let ghost names = texts(gossipsub_topics@);
        let mut registry = TopicRegistry::new();
        let mut i: usize = 0;
        while i < gossipsub_topics.len()
            invariant
                names == texts(gossipsub_topics@),
                i <= gossipsub_topics.len(),
                registry@ == after_subscriptions(Map::empty(), names.take(i as int)),
                subscriptions(*gossipsub) == subscribed_to(
                    subscriptions(before),
                    names.take(i as int),
                ),
                explicit_peers(*gossipsub) == explicit_peers(before),
            decreases gossipsub_topics.len() - i,
        {
            match registry.subscribe(gossipsub, gossipsub_topics[i].as_str()) {
                Ok(_) => {},
                Err(e) => {
                    return Err(e);
                },
            }
            assert(names.take(i + 1).drop_last() == names.take(i as int));
            i = i + 1;
        }
        assert(names.take(i as int) == names);
        Ok(
            P2pNode {
                keypair,
                peers: PeerSet::new(),
                gossipsub_topics: registry,
                authorizer: ConnectionAuthorizer::new(),
                listening_address,
                identify_certificate,
                bootstrap_nodes,
            },
        )
    }

    /// Subscribes to the topic `topic` and records it. Returns the topic's identifier,
    /// which resolves to `topic` from now on. The gossip layer of a node allows every
    /// topic, so the subscription succeeds. Afterwards the layer is subscribed to the
    /// topic beside what it was subscribed to. Nothing else of the node or of the
    /// layer's explicit peers changes.
    pub fn subscribe_topic(&mut self, gossipsub: &mut Gossipsub, topic: &str) -> (id: Result<
        String,
        SubscriptionFailure,
    >)
        ensures
            *final(self) == (P2pNode { gossipsub_topics: final(self).gossipsub_topics, ..*old(self) }),
            id matches Ok(hash) && hash@ == topic_id(topic@),
            final(self).gossipsub_topics@ == old(self).gossipsub_topics@.insert(
                topic_id(topic@),
                topic@,
            ),
            subscriptions(*final(gossipsub)) == subscriptions(*old(gossipsub)).insert(
                topic_id(topic@),
            ),
            explicit_peers(*final(gossipsub)) == explicit_peers(*old(gossipsub)),
    {
        self.gossipsub_topics.subscribe(gossipsub, topic)
    }

    /// Carries out a command of the application. What `publication` makes of a
    /// broadcast is handed to the gossip layer, whether the node is subscribed to the
    /// topic or not. A failure to publish is reported and is not fatal. Publishing
    /// changes neither what the gossip layer is subscribed to nor its explicit peers.
    pub fn handle_p2p_request(&self, gossipsub: &mut Gossipsub, req: P2pRequest) -> (outcome:
        RequestOutcome)
        ensures
            subscriptions(*final(gossipsub)) == subscriptions(*old(gossipsub)),
            explicit_peers(*final(gossipsub)) == explicit_peers(*old(gossipsub)),
    {
        let (topic, data) = publication(req);
        let answer = gossipsub_publish(gossipsub, topic, data);
        request_outcome(answer)
    }
}

} // verus!
