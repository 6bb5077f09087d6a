use libp2p::identity::Keypair;
use libp2p::kad::store::MemoryStore;
use libp2p::swarm::{NetworkBehaviour, ToSwarm};
use libp2p::{Multiaddr, PeerId, StreamProtocol};
use libp2p_gossipsub::{AllowAllSubscriptionFilter, Behaviour, Config, IdentTopic};
use libp2p_gossipsub::IdentityTransform;
use libp2p_gossipsub::MessageAuthenticity;
use pragmalink::authorizer::{AuthorizationStep, ConnectionAuthorizer, Resolution};
use pragmalink::behavior::PROTOCOL_VERSION;
use pragmalink::builder::P2pNodeBuilder;
use pragmalink::events::{Admission, EventOutcome, FatalError, GossipMessage, SwarmEvent};
use pragmalink::peers::PeerSet;
use pragmalink::stack::{Gossipsub, Kademlia, PublishFailure, RoutingOutcome};
use std::task::{Context, Poll, Waker};
use pragmalink::types::{ConversionError, IdentifyEvent, IdentifyInfo, P2pRequest};
use pragmalink::types::{ReceivedConnection, ReceivedMessage};
use pragmalink::{publication, request_outcome, P2pNode, RequestOutcome};

fn local_keypair() -> Keypair {
    Keypair::ed25519_from_bytes([42u8; 32]).unwrap()
}

fn gossipsub() -> Gossipsub {
    Behaviour::<IdentityTransform, AllowAllSubscriptionFilter>::new(
        MessageAuthenticity::Signed(local_keypair()),
        Config::default(),
    )
    .unwrap()
}

fn kademlia() -> Kademlia {
    let local = local_keypair().public().to_peer_id();
    let config = libp2p::kad::Config::new(StreamProtocol::new(PROTOCOL_VERSION));
    libp2p::kad::Behaviour::with_config(local, MemoryStore::new(local), config)
}

fn address(text: &str) -> Vec<u8> {
    text.parse::<Multiaddr>().unwrap().to_vec()
}

fn node_with(topics: &[&str], gossipsub: &mut Gossipsub) -> P2pNode {
    let topics = topics.iter().map(|t| t.to_string()).collect();
    match P2pNode::new(
        local_keypair(),
        address("/ip4/0.0.0.0/tcp/1123"),
        Vec::new(),
        None,
        topics,
        gossipsub,
    ) {
        Ok(node) => node,
        Err(e) => panic!("the node was not made: {:?}", e),
    }
}

fn peer(seed: u8) -> Keypair {
    Keypair::ed25519_from_bytes([seed; 32]).unwrap()
}

fn peer_bytes(seed: u8) -> Vec<u8> {
    peer(seed).public().to_peer_id().to_bytes()
}

fn identify(seed: u8, agent_version: &str) -> IdentifyEvent {
    let keypair = peer(seed);
    IdentifyEvent::Received {
        peer_id: keypair.public().to_peer_id().to_bytes(),
        info: IdentifyInfo {
            public_key: keypair.public().encode_protobuf(),
            listen_addrs: vec![address("/ip4/10.0.0.5/tcp/4001")],
            observed_addr: address("/ip4/192.168.1.7/tcp/5000"),
            agent_version: agent_version.to_string(),
        },
    }
}

fn ticket_of(outcome: EventOutcome) -> (u64, ReceivedConnection) {
    match outcome {
        EventOutcome::Authorize { ticket, request } => (ticket, request),
        other => panic!("no verdict is asked for: {:?}", other),
    }
}

#[test]
fn new_node_has_let_nobody_in() {
    let mut gossipsub = gossipsub();
    let node = node_with(&[], &mut gossipsub);
    assert_eq!(node.peers.len(), 0);
    assert_eq!(node.authorizer.len(), 0);
    assert_eq!(node.gossipsub_topics.len(), 0);
}

#[test]
fn new_node_keeps_its_settings() {
    let mut gossipsub = gossipsub();
    let node = P2pNode::new(
        local_keypair(),
        address("/ip4/127.0.0.1/tcp/7"),
        vec![address("/ip4/10.0.0.1/tcp/1")],
        Some("CERT".to_string()),
        vec!["alpha".to_string()],
        &mut gossipsub,
    )
    .ok()
    .unwrap();
    assert_eq!(node.keypair.public(), local_keypair().public());
    assert_eq!(node.listening_address, address("/ip4/127.0.0.1/tcp/7"));
    assert_eq!(node.bootstrap_nodes, vec![address("/ip4/10.0.0.1/tcp/1")]);
    assert_eq!(node.identify_certificate, Some("CERT".to_string()));
}

#[test]
fn new_node_is_subscribed_to_its_topics() {
    let mut gossipsub = gossipsub();
    let node = node_with(&["alpha", "beta"], &mut gossipsub);
    assert_eq!(node.gossipsub_topics.resolve("alpha"), Some("alpha".to_string()));
    assert_eq!(node.gossipsub_topics.resolve("beta"), Some("beta".to_string()));
    assert_eq!(node.gossipsub_topics.resolve("gamma"), None);
    let mut subscribed: Vec<String> = gossipsub.topics().map(|t| t.as_str().to_string()).collect();
    subscribed.sort();
    assert_eq!(subscribed, vec!["alpha".to_string(), "beta".to_string()]);
}

#[test]
fn subscribe_topic_records_the_topic() {
    let mut gossipsub = gossipsub();
    let mut node = node_with(&[], &mut gossipsub);
    let id = node.subscribe_topic(&mut gossipsub, "x").unwrap();
    assert_eq!(node.gossipsub_topics.resolve(&id), Some("x".to_string()));
}

#[test]
fn message_on_a_configured_topic_is_delivered() {
    let config = P2pNodeBuilder::new()
        .with_gossipsub_topics(vec!["alpha".to_string()])
        .build()
        .ok()
        .unwrap();
    assert!(config.bootstrap_nodes.is_empty());
    let mut gossipsub = gossipsub();
    let mut node = P2pNode::new(
        config.keypair,
        config.listening_address,
        config.bootstrap_nodes,
        config.identify_certificate,
        config.gossipsub_topics,
        &mut gossipsub,
    )
    .ok()
    .unwrap();
    let message = GossipMessage {
        source: None,
        data: b"hello".to_vec(),
        topic: IdentTopic::new("alpha").hash().into_string(),
    };
    assert_eq!(
        node.handle_swarm_event(SwarmEvent::Message(message)),
        EventOutcome::Deliver(ReceivedMessage {
            source: None,
            data: b"hello".to_vec(),
            topic: "alpha".to_string(),
        })
    );
}

#[test]
fn delivered_message_names_its_publisher_in_base58() {
    let mut gossipsub = gossipsub();
    let mut node = node_with(&["alpha"], &mut gossipsub);
    let message = GossipMessage {
        source: Some(peer_bytes(3)),
        data: b"hello".to_vec(),
        topic: "alpha".to_string(),
    };
    assert_eq!(
        node.handle_swarm_event(SwarmEvent::Message(message)),
        EventOutcome::Deliver(ReceivedMessage {
            source: Some(peer(3).public().to_peer_id().to_string()),
            data: b"hello".to_vec(),
            topic: "alpha".to_string(),
        })
    );
}

#[test]
fn message_on_an_unknown_topic_is_dropped() {
    let mut gossipsub = gossipsub();
    let mut node = node_with(&["alpha"], &mut gossipsub);
    let message = GossipMessage { source: None, data: b"hello".to_vec(), topic: "beta".to_string() };
    assert_eq!(node.handle_swarm_event(SwarmEvent::Message(message)), EventOutcome::Dropped);
    let message = GossipMessage {
        source: Some(vec![1, 2, 3]),
        data: Vec::new(),
        topic: "beta".to_string(),
    };
    assert_eq!(node.dispatch_message(message), EventOutcome::Dropped);
}

#[test]
fn message_with_a_malformed_publisher_is_passed_over() {
    let mut gossipsub = gossipsub();
    let node = node_with(&["alpha"], &mut gossipsub);
    let message = GossipMessage {
        source: Some(vec![1, 2, 3]),
        data: b"hello".to_vec(),
        topic: "alpha".to_string(),
    };
    assert_eq!(
        node.dispatch_message(message),
        EventOutcome::Malformed(ConversionError::InvalidPeerId)
    );
}

#[test]
fn listening_address_is_reported() {
    let mut gossipsub = gossipsub();
    let mut node = node_with(&[], &mut gossipsub);
    let event = SwarmEvent::NewListenAddr { address: address("/ip4/127.0.0.1/tcp/7") };
    assert_eq!(
        node.handle_swarm_event(event),
        EventOutcome::Listening { address: address("/ip4/127.0.0.1/tcp/7") }
    );
}

#[test]
fn other_events_are_ignored() {
    let mut gossipsub = gossipsub();
    let mut node = node_with(&["alpha"], &mut gossipsub);
    assert_eq!(node.handle_swarm_event(SwarmEvent::Other), EventOutcome::Ignored);
    assert_eq!(node.peers.len(), 0);
    assert_eq!(node.authorizer.len(), 0);
}

#[test]
fn identity_event_asks_for_one_verdict() {
    let mut gossipsub = gossipsub();
    let mut node = node_with(&[], &mut gossipsub);
    let outcome = node.handle_swarm_event(SwarmEvent::Identify(identify(1, "app/1.0/extra/CERT123")));
    let (ticket, request) = ticket_of(outcome);
    assert_eq!(request.certificate, Some("CERT123".to_string()));
    assert_eq!(request.peer_id, peer(1).public().to_peer_id().to_string());
    assert!(node.authorizer.is_pending(ticket));
    assert_eq!(node.authorizer.len(), 1);
    assert_eq!(node.peers.len(), 0);
}

#[test]
fn malformed_identity_event_asks_for_no_verdict() {
    let mut gossipsub = gossipsub();
    let mut node = node_with(&[], &mut gossipsub);
    let event = IdentifyEvent::Received {
        peer_id: peer_bytes(1),
        info: IdentifyInfo {
            public_key: vec![0xff],
            listen_addrs: Vec::new(),
            observed_addr: address("/ip4/192.168.1.7/tcp/5000"),
            agent_version: "a/b/c/d".to_string(),
        },
    };
    assert_eq!(
        node.handle_swarm_event(SwarmEvent::Identify(event)),
        EventOutcome::Malformed(ConversionError::UnexpectedKeyType)
    );
    assert_eq!(node.authorizer.len(), 0);
}

#[test]
fn other_events_of_the_identity_exchange_are_ignored() {
    let mut gossipsub = gossipsub();
    let mut node = node_with(&[], &mut gossipsub);
    let sent = IdentifyEvent::Sent { peer_id: peer_bytes(1) };
    assert_eq!(node.handle_swarm_event(SwarmEvent::Identify(sent)), EventOutcome::Ignored);
    let failed = IdentifyEvent::Error { peer_id: peer_bytes(1) };
    assert_eq!(node.handle_swarm_event(SwarmEvent::Identify(failed)), EventOutcome::Ignored);
    let pushed = match identify(1, "a/b/c/d") {
        IdentifyEvent::Received { peer_id, info } => IdentifyEvent::Pushed { peer_id, info },
        other => other,
    };
    assert_eq!(node.handle_swarm_event(SwarmEvent::Identify(pushed)), EventOutcome::Ignored);
    assert_eq!(node.authorizer.len(), 0);
    assert_eq!(node.peers.len(), 0);
}

#[test]
fn broadcast_is_handed_over_under_the_identifier_of_its_topic() {
    let (topic, data) =
        publication(P2pRequest::Broadcast("beta".to_string(), b"hello".to_vec()));
    assert_eq!(topic, IdentTopic::new("beta").hash().into_string());
    assert_eq!(topic, "beta");
    assert_eq!(data, b"hello".to_vec());
    let mut gossipsub = gossipsub();
    let mut registry = pragmalink::topics::TopicRegistry::new();
    assert_eq!(registry.subscribe(&mut gossipsub, "beta"), Ok(topic));
}

#[test]
fn broadcast_leaves_the_subscriptions_of_the_gossip_layer() {
    let mut gossipsub = gossipsub();
    let node = node_with(&["alpha"], &mut gossipsub);
    let _ = node.handle_p2p_request(
        &mut gossipsub,
        P2pRequest::Broadcast("beta".to_string(), b"payload".to_vec()),
    );
    let subscribed: Vec<String> = gossipsub.topics().map(|t| t.as_str().to_string()).collect();
    assert_eq!(subscribed, vec!["alpha".to_string()]);
}

#[test]
fn accepted_peer_is_in_the_peer_set() {
    let mut gossipsub = gossipsub();
    let mut kademlia = kademlia();
    let mut node = node_with(&[], &mut gossipsub);
    let (ticket, _) = ticket_of(node.handle_swarm_event(SwarmEvent::Identify(identify(1, "a"))));
    let done = node.handle_verdict(&mut gossipsub, &mut kademlia, ticket, Some(true));
    match done {
        Ok(Admission::Admitted { fresh, routing }) => {
            assert!(fresh);
            assert_eq!(routing, RoutingOutcome::Success);
        },
        other => panic!("the peer was not let in: {:?}", other),
    }
    assert!(node.peers.contains(&peer_bytes(1)));
    assert_eq!(node.peers.len(), 1);
    assert!(!node.authorizer.is_pending(ticket));
}

#[test]
fn accepted_peer_is_an_explicit_peer_of_the_gossip_layer() {
    let mut gossipsub = gossipsub();
    let mut kademlia = kademlia();
    let mut node = node_with(&[], &mut gossipsub);
    let (ticket, _) = ticket_of(node.handle_swarm_event(SwarmEvent::Identify(identify(1, "a"))));
    let mut context = Context::from_waker(Waker::noop());
    assert!(gossipsub.poll(&mut context).is_pending());
    assert!(node.handle_verdict(&mut gossipsub, &mut kademlia, ticket, Some(true)).is_ok());
    // The gossip layer asks for a connection to a peer it was given as explicit.
    let id: PeerId = peer(1).public().to_peer_id();
    match gossipsub.poll(&mut context) {
        Poll::Ready(ToSwarm::Dial { opts }) => assert_eq!(opts.get_peer_id(), Some(id)),
        _ => panic!("the gossip layer does not dial the peer"),
    }
}

#[test]
fn accepted_peer_is_in_the_routing_table() {
    let mut gossipsub = gossipsub();
    let mut kademlia = kademlia();
    let mut node = node_with(&[], &mut gossipsub);
    let (ticket, _) = ticket_of(node.handle_swarm_event(SwarmEvent::Identify(identify(1, "a"))));
    let entries: usize = kademlia.kbuckets().map(|bucket| bucket.num_entries()).sum();
    assert_eq!(entries, 0);
    match node.handle_verdict(&mut gossipsub, &mut kademlia, ticket, Some(true)) {
        Ok(Admission::Admitted { routing, .. }) => assert_eq!(routing, RoutingOutcome::Success),
        other => panic!("the peer was not let in: {:?}", other),
    }
    let entries: usize = kademlia.kbuckets().map(|bucket| bucket.num_entries()).sum();
    assert_eq!(entries, 1);
}

#[test]
fn rejected_peer_reaches_neither_gossip_nor_routing() {
    let mut gossipsub = gossipsub();
    let mut kademlia = kademlia();
    let mut node = node_with(&[], &mut gossipsub);
    let (ticket, _) = ticket_of(node.handle_swarm_event(SwarmEvent::Identify(identify(1, "a"))));
    assert!(node.handle_verdict(&mut gossipsub, &mut kademlia, ticket, Some(false)).is_ok());
    let mut context = Context::from_waker(Waker::noop());
    assert!(gossipsub.poll(&mut context).is_pending());
    let entries: usize = kademlia.kbuckets().map(|bucket| bucket.num_entries()).sum();
    assert_eq!(entries, 0);
}

#[test]
fn rejected_peer_is_not_in_the_peer_set() {
    let mut gossipsub = gossipsub();
    let mut kademlia = kademlia();
    let mut node = node_with(&[], &mut gossipsub);
    let (ticket, _) = ticket_of(node.handle_swarm_event(SwarmEvent::Identify(identify(1, "a"))));
    let done = node.handle_verdict(&mut gossipsub, &mut kademlia, ticket, Some(false));
    assert_eq!(done, Ok(Admission::Rejected));
    assert!(!node.peers.contains(&peer_bytes(1)));
    assert_eq!(node.peers.len(), 0);
    assert!(!node.authorizer.is_pending(ticket));
}

#[test]
fn rejection_leaves_an_earlier_acceptance_standing() {
    let mut gossipsub = gossipsub();
    let mut kademlia = kademlia();
    let mut node = node_with(&[], &mut gossipsub);
    let (first, _) = ticket_of(node.handle_swarm_event(SwarmEvent::Identify(identify(1, "a"))));
    assert!(node.handle_verdict(&mut gossipsub, &mut kademlia, first, Some(true)).is_ok());
    let (second, _) = ticket_of(node.handle_swarm_event(SwarmEvent::Identify(identify(1, "a"))));
    let done = node.handle_verdict(&mut gossipsub, &mut kademlia, second, Some(false));
    assert_eq!(done, Ok(Admission::Rejected));
    assert!(node.peers.contains(&peer_bytes(1)));
}

#[test]
fn accepting_a_peer_again_is_not_fresh() {
    let mut gossipsub = gossipsub();
    let mut kademlia = kademlia();
    let mut node = node_with(&[], &mut gossipsub);
    let (first, _) = ticket_of(node.handle_swarm_event(SwarmEvent::Identify(identify(1, "a"))));
    assert!(node.handle_verdict(&mut gossipsub, &mut kademlia, first, Some(true)).is_ok());
    let (second, _) = ticket_of(node.handle_swarm_event(SwarmEvent::Identify(identify(1, "a"))));
    match node.handle_verdict(&mut gossipsub, &mut kademlia, second, Some(true)) {
        Ok(Admission::Admitted { fresh, .. }) => assert!(!fresh),
        other => panic!("the peer was not let in: {:?}", other),
    }
    assert_eq!(node.peers.len(), 1);
}

#[test]
fn closed_verdict_channel_is_fatal() {
    let mut gossipsub = gossipsub();
    let mut kademlia = kademlia();
    let mut node = node_with(&[], &mut gossipsub);
    let (ticket, _) = ticket_of(node.handle_swarm_event(SwarmEvent::Identify(identify(1, "a"))));
    let done = node.handle_verdict(&mut gossipsub, &mut kademlia, ticket, None);
    assert_eq!(done, Err(FatalError::AuthorizationClosed));
    assert_eq!(node.peers.len(), 0);
    assert!(!node.authorizer.is_pending(ticket));
}

#[test]
fn verdict_for_an_unknown_ticket_changes_nothing() {
    let mut gossipsub = gossipsub();
    let mut kademlia = kademlia();
    let mut node = node_with(&[], &mut gossipsub);
    let (ticket, _) = ticket_of(node.handle_swarm_event(SwarmEvent::Identify(identify(1, "a"))));
    let done = node.handle_verdict(&mut gossipsub, &mut kademlia, ticket + 1, Some(true));
    assert_eq!(done, Ok(Admission::Unknown));
    let done = node.handle_verdict(&mut gossipsub, &mut kademlia, ticket + 1, None);
    assert_eq!(done, Ok(Admission::Unknown));
    assert_eq!(node.peers.len(), 0);
    assert!(node.authorizer.is_pending(ticket));
}

#[test]
fn a_wait_ends_only_once() {
    let mut gossipsub = gossipsub();
    let mut kademlia = kademlia();
    let mut node = node_with(&[], &mut gossipsub);
    let (ticket, _) = ticket_of(node.handle_swarm_event(SwarmEvent::Identify(identify(1, "a"))));
    let done = node.handle_verdict(&mut gossipsub, &mut kademlia, ticket, Some(false));
    assert_eq!(done, Ok(Admission::Rejected));
    let again = node.handle_verdict(&mut gossipsub, &mut kademlia, ticket, Some(true));
    assert_eq!(again, Ok(Admission::Unknown));
    assert!(!node.peers.contains(&peer_bytes(1)));
}

#[test]
fn outstanding_verdict_does_not_hold_up_another() {
    let mut gossipsub = gossipsub();
    let mut kademlia = kademlia();
    let mut node = node_with(&[], &mut gossipsub);
    let (a, _) = ticket_of(node.handle_swarm_event(SwarmEvent::Identify(identify(1, "a"))));
    let (b, _) = ticket_of(node.handle_swarm_event(SwarmEvent::Identify(identify(2, "b"))));
    let (c, _) = ticket_of(node.handle_swarm_event(SwarmEvent::Identify(identify(3, "c"))));
    assert!(a != b && b != c && a != c);
    assert_eq!(node.authorizer.len(), 3);
    assert!(node.handle_verdict(&mut gossipsub, &mut kademlia, b, Some(true)).is_ok());
    assert!(node.peers.contains(&peer_bytes(2)));
    assert!(!node.peers.contains(&peer_bytes(1)));
    assert!(node.authorizer.is_pending(a));
    assert!(node.authorizer.is_pending(c));
    assert_eq!(
        node.handle_verdict(&mut gossipsub, &mut kademlia, c, Some(false)),
        Ok(Admission::Rejected)
    );
    assert!(node.authorizer.is_pending(a));
    assert!(node.handle_verdict(&mut gossipsub, &mut kademlia, a, Some(true)).is_ok());
    assert!(node.peers.contains(&peer_bytes(1)));
    assert!(!node.peers.contains(&peer_bytes(3)));
    assert_eq!(node.peers.len(), 2);
    assert_eq!(node.authorizer.len(), 0);
}

#[test]
fn broadcast_on_a_topic_never_subscribed_fails_and_is_not_fatal() {
    let mut gossipsub = gossipsub();
    let mut node = node_with(&["alpha"], &mut gossipsub);
    let outcome = node.handle_p2p_request(
        &mut gossipsub,
        P2pRequest::Broadcast("beta".to_string(), b"payload".to_vec()),
    );
    assert_eq!(outcome, RequestOutcome::PublishFailed(PublishFailure::NoPeersSubscribedToTopic));
    // The node goes on: it still takes events.
    assert_eq!(node.handle_swarm_event(SwarmEvent::Other), EventOutcome::Ignored);
    assert_eq!(node.gossipsub_topics.resolve("alpha"), Some("alpha".to_string()));
}

#[test]
fn broadcast_without_peers_fails_on_a_subscribed_topic_too() {
    let mut gossipsub = gossipsub();
    let node = node_with(&["alpha"], &mut gossipsub);
    let outcome = node.handle_p2p_request(
        &mut gossipsub,
        P2pRequest::Broadcast("alpha".to_string(), b"payload".to_vec()),
    );
    assert_eq!(outcome, RequestOutcome::PublishFailed(PublishFailure::NoPeersSubscribedToTopic));
}

#[test]
fn oversized_broadcast_fails() {
    let mut gossipsub = gossipsub();
    let node = node_with(&["alpha"], &mut gossipsub);
    let outcome = node.handle_p2p_request(
        &mut gossipsub,
        P2pRequest::Broadcast("alpha".to_string(), vec![0u8; 1 << 20]),
    );
    assert_eq!(outcome, RequestOutcome::PublishFailed(PublishFailure::MessageTooLarge));
}

#[test]
fn outcome_of_a_broadcast_follows_the_answer() {
    assert_eq!(request_outcome(Ok(vec![1, 2, 3])), RequestOutcome::Published(vec![1, 2, 3]));
    assert_eq!(
        request_outcome(Err(PublishFailure::Duplicate)),
        RequestOutcome::PublishFailed(PublishFailure::Duplicate)
    );
    assert_eq!(
        request_outcome(Err(PublishFailure::AllQueuesFull(4))),
        RequestOutcome::PublishFailed(PublishFailure::AllQueuesFull(4))
    );
    assert_eq!(
        request_outcome(Err(PublishFailure::Signing)),
        RequestOutcome::PublishFailed(PublishFailure::Signing)
    );
    assert_eq!(
        request_outcome(Err(PublishFailure::TransformFailed)),
        RequestOutcome::PublishFailed(PublishFailure::TransformFailed)
    );
}

#[test]
fn tickets_are_the_least_numbers_out_of_use() {
    let mut authorizer = ConnectionAuthorizer::new();
    let mut tickets = Vec::new();
    for seed in 1..=3u8 {
        match authorizer.begin(identify(seed, "a")) {
            AuthorizationStep::AwaitingVerdict { ticket, .. } => tickets.push(ticket),
            AuthorizationStep::Failed(e) => panic!("no verdict is asked for: {:?}", e),
        }
    }
    assert_eq!(tickets, vec![0, 1, 2]);
    assert_eq!(authorizer.resolve(1, Some(false)), Resolution::Rejected);
    match authorizer.begin(identify(4, "a")) {
        AuthorizationStep::AwaitingVerdict { ticket, .. } => assert_eq!(ticket, 1),
        AuthorizationStep::Failed(e) => panic!("no verdict is asked for: {:?}", e),
    }
    assert_eq!(authorizer.len(), 3);
}

#[test]
fn resolution_follows_the_verdict() {
    let mut authorizer = ConnectionAuthorizer::new();
    for seed in 1..=3u8 {
        assert!(matches!(
            authorizer.begin(identify(seed, "a")),
            AuthorizationStep::AwaitingVerdict { .. }
        ));
    }
    assert_eq!(
        authorizer.resolve(0, Some(true)),
        Resolution::Admitted {
            peer: peer_bytes(1),
            observed_addr: address("/ip4/192.168.1.7/tcp/5000"),
        }
    );
    assert_eq!(authorizer.resolve(1, Some(false)), Resolution::Rejected);
    assert_eq!(authorizer.resolve(2, None), Resolution::Failed);
    assert_eq!(authorizer.resolve(2, Some(true)), Resolution::Unknown);
    assert_eq!(authorizer.resolve(7, Some(true)), Resolution::Unknown);
    assert_eq!(authorizer.len(), 0);
}

#[test]
fn malformed_event_leaves_nobody_waiting() {
    let mut authorizer = ConnectionAuthorizer::new();
    let step = authorizer.begin(IdentifyEvent::Error { peer_id: peer_bytes(1) });
    assert_eq!(step, AuthorizationStep::Failed(ConversionError::InvalidEvent));
    assert_eq!(authorizer.len(), 0);
    assert!(!authorizer.is_pending(0));
}

#[test]
fn peer_set_holds_each_peer_once() {
    let mut peers = PeerSet::new();
    assert_eq!(peers.len(), 0);
    assert!(!peers.contains(&[1, 2, 3]));
    assert!(peers.insert(vec![1, 2, 3]));
    assert!(peers.insert(vec![1, 2]));
    assert!(!peers.insert(vec![1, 2, 3]));
    assert!(peers.contains(&[1, 2, 3]));
    assert!(peers.contains(&[1, 2]));
    assert!(!peers.contains(&[1]));
    assert!(!peers.contains(&[1, 2, 4]));
    assert_eq!(peers.len(), 2);
}
