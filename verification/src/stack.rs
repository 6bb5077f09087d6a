//! The networking stack as the node sees it: the types it hands through, and the calls it makes.
//!
//! Peer identifiers, addresses and public keys cross this boundary in their binary
//! form. What the stack computes from them is named here and trusted, not proved.

use vstd::prelude::*;

verus! {

/// The gossip layer of a node: messages as they are, every subscription allowed.
pub type Gossipsub = libp2p_gossipsub::Behaviour<
    libp2p_gossipsub::IdentityTransform,
    libp2p_gossipsub::AllowAllSubscriptionFilter,
>;

/// The routing table of a node, with its records held in memory.
pub type Kademlia = libp2p::kad::Behaviour<libp2p::kad::store::MemoryStore>;

/// The gossip behaviour. Nothing of its state is known to the node.
#[verifier::external_type_specification]
#[verifier::external_body]
#[verifier::reject_recursive_types(D)]
#[verifier::reject_recursive_types(F)]
pub struct ExGossipsubBehaviour<D, F>(libp2p_gossipsub::Behaviour<D, F>);

/// The transform that leaves messages as they are.
#[verifier::external_type_specification]
#[verifier::external_body]
pub struct ExIdentityTransform(libp2p_gossipsub::IdentityTransform);

/// The filter that allows every subscription.
#[verifier::external_type_specification]
#[verifier::external_body]
pub struct ExAllowAllSubscriptionFilter(libp2p_gossipsub::AllowAllSubscriptionFilter);

/// The routing behaviour. Nothing of its state is known to the node.
#[verifier::external_type_specification]
#[verifier::external_body]
#[verifier::reject_recursive_types(TStore)]
pub struct ExKademliaBehaviour<TStore>(libp2p::kad::Behaviour<TStore>);

/// The record store that holds its records in memory.
#[verifier::external_type_specification]
#[verifier::external_body]
pub struct ExMemoryStore(libp2p::kad::store::MemoryStore);

/// A keypair. The node carries it and never looks inside.
#[verifier::external_type_specification]
#[verifier::external_body]
pub struct ExKeypair(libp2p::identity::Keypair);

/// Why key material did not decode.
#[verifier::external_type_specification]
#[verifier::external_body]
pub struct ExDecodingError(libp2p::identity::DecodingError);

/// Why the gossip layer refused a subscription.
#[derive(Clone, Copy, Debug, PartialEq, Eq)]
pub enum SubscriptionFailure {
    /// The subscription could not be announced.
    PublishFailed,
    /// The subscription filter does not allow the topic.
    NotAllowed,
}

/// Why the gossip layer did not publish a message.
#[derive(Clone, Copy, Debug, PartialEq, Eq)]
pub enum PublishFailure {
    /// The same message was published before.
    Duplicate,
    /// The message could not be signed.
    Signing,
    /// No connected peer is subscribed to the topic.
    NoPeersSubscribedToTopic,
    /// The message is larger than the layer transmits.
    MessageTooLarge,
    /// The outbound transform failed.
    TransformFailed,
    /// The queue of every one of this many receiving peers was full.
    AllQueuesFull(usize),
}

/// What became of an address handed to the routing table.
#[derive(Clone, Copy, Debug, PartialEq, Eq)]
pub enum RoutingOutcome {
    /// The address is in the routing table.
    Success,
    /// The address waits for a slot in the routing table.
    Pending,
    /// The routing table did not take the address.
    Failed,
}

/// The base58 text of the peer identifier that `bytes` encode; `None` where they encode none.
pub uninterp spec fn peer_id_text(bytes: Seq<u8>) -> Option<Seq<char>>;

/// The text of the address that `bytes` encode; `None` where they encode none.
pub uninterp spec fn multiaddr_text(bytes: Seq<u8>) -> Option<Seq<char>>;

/// The binary form of the address that `text` spells; `None` where it spells none.
pub uninterp spec fn multiaddr_bytes(text: Seq<char>) -> Option<Seq<u8>>;

/// The address `base` followed by the TCP port `port`, binary on both sides;
/// `None` where `base` encodes no address.
pub uninterp spec fn multiaddr_with_tcp(base: Seq<u8>, port: u16) -> Option<Seq<u8>>;

/// The 32 bytes of the Ed25519 key that `encoded` holds in protobuf form;
/// `None` where it does not decode or holds a key of another kind.
pub uninterp spec fn ed25519_key(encoded: Seq<u8>) -> Option<Seq<u8>>;

/// The keypair whose Ed25519 secret is `secret`; `None` unless `secret` is 32 bytes.
pub uninterp spec fn keypair_of_secret(secret: Seq<u8>) -> Option<libp2p::identity::Keypair>;

/// The topics that the gossip layer is subscribed to, each by its identifier.
pub uninterp spec fn subscriptions(gossipsub: Gossipsub) -> Set<Seq<char>>;

/// The explicit peers of the gossip layer, each by the base58 text of its identifier.
pub uninterp spec fn explicit_peers(gossipsub: Gossipsub) -> Set<Seq<char>>;

/// `PeerId::from_bytes`, and `PeerId::to_base58` on what it gives: trusted to depend on
/// the bytes alone.
#[verifier::external_body]
pub(crate) fn peer_id_base58(bytes: &[u8]) -> (text: Option<String>)
    ensures
        match text {
            Some(t) => peer_id_text(bytes@) == Some(t@),
            None => peer_id_text(bytes@) is None,
        },
{
    match libp2p::PeerId::from_bytes(bytes) {
        Ok(peer) => Some(peer.to_base58()),
        Err(_) => None,
    }
}

/// `Multiaddr::try_from` on a byte vector, and `to_string` on what it gives: trusted to
/// depend on the bytes alone.
#[verifier::external_body]
pub(crate) fn multiaddr_to_text(bytes: &[u8]) -> (text: Option<String>)
    ensures
        match text {
            Some(t) => multiaddr_text(bytes@) == Some(t@),
            None => multiaddr_text(bytes@) is None,
        },
{
    match libp2p::Multiaddr::try_from(bytes.to_vec()) {
        Ok(address) => Some(address.to_string()),
        Err(_) => None,
    }
}

/// `str::parse` into a `Multiaddr`, and `to_vec` on what it gives: trusted to depend on
/// the text alone.
#[verifier::external_body]
pub(crate) fn parse_multiaddr(text: &str) -> (bytes: Option<Vec<u8>>)
    ensures
        match bytes {
            Some(b) => multiaddr_bytes(text@) == Some(b@),
            None => multiaddr_bytes(text@) is None,
        },
{
    match text.parse::<libp2p::Multiaddr>() {
        Ok(address) => Some(address.to_vec()),
        Err(_) => None,
    }
}

/// `Multiaddr::with`, given `Protocol::Tcp`, on the address that `base` encodes: trusted
/// to depend on `base` and `port` alone.
#[verifier::external_body]
pub(crate) fn with_tcp(base: &[u8], port: u16) -> (bytes: Option<Vec<u8>>)
    ensures
        match bytes {
            Some(b) => multiaddr_with_tcp(base@, port) == Some(b@),
            None => multiaddr_with_tcp(base@, port) is None,
        },
{
    match libp2p::Multiaddr::try_from(base.to_vec()) {
        Ok(address) => Some(address.with(libp2p::multiaddr::Protocol::Tcp(port)).to_vec()),
        Err(_) => None,
    }
}

/// `PublicKey::try_decode_protobuf`, `try_into_ed25519` on what it gives, and `to_bytes`
/// on that: trusted to depend on the bytes alone.
#[verifier::external_body]
pub(crate) fn ed25519_public_key(encoded: &[u8]) -> (key: Option<[u8; 32]>)
    ensures
        match key {
            Some(k) => ed25519_key(encoded@) == Some(k@),
            None => ed25519_key(encoded@) is None,
        },
{
    match libp2p::identity::PublicKey::try_decode_protobuf(encoded) {
        Ok(key) => match key.try_into_ed25519() {
            Ok(key) => Some(key.to_bytes()),
            Err(_) => None,
        },
        Err(_) => None,
    }
}

/// `Keypair::ed25519_from_bytes`: trusted to take exactly the secrets of 32 bytes, and
/// to give the keypair that the secret alone determines.
#[verifier::external_body]
pub(crate) fn keypair_from_secret(secret: Vec<u8>) -> (keypair: Result<
    libp2p::identity::Keypair,
    libp2p::identity::DecodingError,
>)
    ensures
        keypair is Ok <==> secret@.len() == 32,
        match keypair {
            Ok(k) => keypair_of_secret(secret@) == Some(k),
            Err(_) => keypair_of_secret(secret@) is None,
        },
{
    libp2p::identity::Keypair::ed25519_from_bytes(secret)
}

/// `Keypair::generate_ed25519`: a fresh random keypair, of which nothing is known.
#[verifier::external_body]
pub(crate) fn generate_keypair() -> libp2p::identity::Keypair {
    libp2p::identity::Keypair::generate_ed25519()
}

/// `IdentTopic::new`, `hash` on the topic and `into_string` on the hash: trusted to give
/// the topic's name back, the identity hash being the name itself.
#[verifier::external_body]
pub(crate) fn topic_hash(name: &str) -> (hash: String)
    ensures
        hash@ == name@,
{
    libp2p_gossipsub::IdentTopic::new(name).hash().into_string()
}

/// `Behaviour::subscribe` on the identity topic of `name`, whose identifier is `name`
/// itself. Trusted: it refuses on the word of the subscription filter alone, and the
/// filter of `Gossipsub` allows every topic; it answers whether the layer was not
/// subscribed to the topic before; afterwards the layer is subscribed to the topic
/// beside what it was subscribed to, and its explicit peers are as they were.
#[verifier::external_body]
pub(crate) fn gossipsub_subscribe(gossipsub: &mut Gossipsub, name: &str) -> (answer: Result<
    bool,
    SubscriptionFailure,
>)
    ensures
        answer == Ok::<bool, SubscriptionFailure>(!subscriptions(*old(gossipsub)).contains(name@)),
        subscriptions(*final(gossipsub)) == subscriptions(*old(gossipsub)).insert(name@),
        explicit_peers(*final(gossipsub)) == explicit_peers(*old(gossipsub)),
{
    match gossipsub.subscribe(&libp2p_gossipsub::IdentTopic::new(name)) {
        Ok(fresh) => Ok(fresh),
        Err(libp2p_gossipsub::SubscriptionError::PublishError(_)) => Err(
            SubscriptionFailure::PublishFailed,
        ),
        Err(libp2p_gossipsub::SubscriptionError::NotAllowed) => Err(SubscriptionFailure::NotAllowed),
    }
}

/// `Behaviour::publish` of `data` under the topic identifier `topic`, giving the
/// message's identifier. Whether it succeeds depends on the peers connected: nothing
/// is claimed of the answer. Trusted: publishing changes neither what the layer is
/// subscribed to nor its explicit peers.
#[verifier::external_body]
pub(crate) fn gossipsub_publish(gossipsub: &mut Gossipsub, topic: String, data: Vec<u8>) -> (answer:
    Result<Vec<u8>, PublishFailure>)
    ensures
        subscriptions(*final(gossipsub)) == subscriptions(*old(gossipsub)),
        explicit_peers(*final(gossipsub)) == explicit_peers(*old(gossipsub)),
{
    match gossipsub.publish(libp2p_gossipsub::TopicHash::from_raw(topic), data) {
        Ok(id) => Ok(id.0),
        Err(libp2p_gossipsub::PublishError::Duplicate) => Err(PublishFailure::Duplicate),
        Err(libp2p_gossipsub::PublishError::SigningError(_)) => Err(PublishFailure::Signing),
        Err(libp2p_gossipsub::PublishError::NoPeersSubscribedToTopic) => Err(
            PublishFailure::NoPeersSubscribedToTopic,
        ),
        Err(libp2p_gossipsub::PublishError::MessageTooLarge) => Err(PublishFailure::MessageTooLarge),
        Err(libp2p_gossipsub::PublishError::TransformFailed(_)) => Err(
            PublishFailure::TransformFailed,
        ),
        Err(libp2p_gossipsub::PublishError::AllQueuesFull(peers)) => Err(
            PublishFailure::AllQueuesFull(peers),
        ),
    }
}

/// `Behaviour::add_explicit_peer` on the peer that `peer` encodes. It asks for bytes
/// that `PeerId::from_bytes` takes. Trusted: afterwards the peer is among the explicit
/// peers beside those that were, and the layer's subscriptions are as they were.
#[verifier::external_body]
pub(crate) fn gossipsub_add_explicit_peer(gossipsub: &mut Gossipsub, peer: &[u8])
    requires
        peer_id_text(peer@) is Some,
    ensures
        explicit_peers(*final(gossipsub)) == explicit_peers(*old(gossipsub)).insert(
            peer_id_text(peer@)->0,
        ),
        subscriptions(*final(gossipsub)) == subscriptions(*old(gossipsub)),
{
    if let Ok(peer) = libp2p::PeerId::from_bytes(peer) {
        gossipsub.add_explicit_peer(&peer);
    }
}

/// `Behaviour::add_address` of the routing table, on the peer and the address that the
/// bytes encode. It asks for bytes that `PeerId::from_bytes` and `Multiaddr::try_from`
/// take. What the table answers, and what it holds afterwards, depends on what it held
/// and on the time: nothing is claimed of either.
#[verifier::external_body]
pub(crate) fn kademlia_add_address(
    kademlia: &mut Kademlia,
    peer: &[u8],
    address: &[u8],
) -> RoutingOutcome
    requires
        peer_id_text(peer@) is Some,
        multiaddr_text(address@) is Some,
{
    match (libp2p::PeerId::from_bytes(peer), libp2p::Multiaddr::try_from(address.to_vec())) {
        (Ok(peer), Ok(address)) => match kademlia.add_address(&peer, address) {
            libp2p::kad::RoutingUpdate::Success => RoutingOutcome::Success,
            libp2p::kad::RoutingUpdate::Pending => RoutingOutcome::Pending,
            libp2p::kad::RoutingUpdate::Failed => RoutingOutcome::Failed,
        },
        _ => RoutingOutcome::Failed,
    }
}

} // verus!
