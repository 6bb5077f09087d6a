use libp2p::identity::Keypair;
use libp2p::Multiaddr;
use pragmalink::types::{ConversionError, IdentifyEvent, IdentifyInfo, ReceivedConnection};

fn address(text: &str) -> Vec<u8> {
    text.parse::<Multiaddr>().unwrap().to_vec()
}

fn info_of(keypair: &Keypair, agent_version: &str) -> IdentifyInfo {
    IdentifyInfo {
        public_key: keypair.public().encode_protobuf(),
        listen_addrs: vec![address("/ip4/10.0.0.5/tcp/4001"), address("/ip6/::1/udp/9")],
        observed_addr: address("/ip4/192.168.1.7/tcp/5000"),
        agent_version: agent_version.to_string(),
    }
}

fn received(keypair: &Keypair, agent_version: &str) -> IdentifyEvent {
    IdentifyEvent::Received {
        peer_id: keypair.public().to_peer_id().to_bytes(),
        info: info_of(keypair, agent_version),
    }
}

#[test]
fn certificate_is_read_from_the_agent_string() {
    let keypair = Keypair::ed25519_from_bytes([1u8; 32]).unwrap();
    let request = ReceivedConnection::try_from(received(&keypair, "app/1.0/extra/CERT123")).unwrap();
    assert_eq!(request.certificate, Some("CERT123".to_string()));
}

#[test]
fn short_agent_string_gives_no_certificate() {
    let keypair = Keypair::ed25519_from_bytes([1u8; 32]).unwrap();
    let request = ReceivedConnection::try_from(received(&keypair, "app/1.0")).unwrap();
    assert_eq!(request.certificate, None);
}

#[test]
fn request_holds_what_the_peer_told() {
    let keypair = Keypair::ed25519_from_bytes([2u8; 32]).unwrap();
    let request = ReceivedConnection::try_from(received(&keypair, "/pragma-node/0.1.0/c")).unwrap();
    assert_eq!(request.peer_id, keypair.public().to_peer_id().to_string());
    assert_eq!(request.pubkey, keypair.public().try_into_ed25519().unwrap().to_bytes());
    assert_eq!(
        request.listen_addrs,
        vec!["/ip4/10.0.0.5/tcp/4001".to_string(), "/ip6/::1/udp/9".to_string()]
    );
    assert_eq!(request.observed_addr, "/ip4/192.168.1.7/tcp/5000");
    assert_eq!(request.certificate, Some("c".to_string()));
}

#[test]
fn peer_id_is_spelled_in_base58() {
    let keypair = Keypair::ed25519_from_bytes([3u8; 32]).unwrap();
    let request = ReceivedConnection::try_from(received(&keypair, "a")).unwrap();
    assert!(request.peer_id.starts_with("12D3KooW"));
    assert_eq!(request.peer_id.parse::<libp2p::PeerId>().unwrap(), keypair.public().to_peer_id());
}

#[test]
fn other_events_give_no_request() {
    let keypair = Keypair::ed25519_from_bytes([4u8; 32]).unwrap();
    let peer_id = keypair.public().to_peer_id().to_bytes();
    let sent = IdentifyEvent::Sent { peer_id: peer_id.clone() };
    assert_eq!(ReceivedConnection::try_from(sent), Err(ConversionError::InvalidEvent));
    let pushed = IdentifyEvent::Pushed { peer_id: peer_id.clone(), info: info_of(&keypair, "a/b/c/d") };
    assert_eq!(ReceivedConnection::try_from(pushed), Err(ConversionError::InvalidEvent));
    let failed = IdentifyEvent::Error { peer_id };
    assert_eq!(ReceivedConnection::try_from(failed), Err(ConversionError::InvalidEvent));
}

#[test]
fn key_that_does_not_decode_gives_no_request() {
    let keypair = Keypair::ed25519_from_bytes([5u8; 32]).unwrap();
    let mut info = info_of(&keypair, "a/b/c/d");
    info.public_key = vec![0xff, 0xff, 0xff];
    let event = IdentifyEvent::Received { peer_id: keypair.public().to_peer_id().to_bytes(), info };
    assert_eq!(ReceivedConnection::try_from(event), Err(ConversionError::UnexpectedKeyType));
}

#[test]
fn key_of_another_kind_gives_no_request() {
    let keypair = Keypair::ed25519_from_bytes([5u8; 32]).unwrap();
    let mut info = info_of(&keypair, "a/b/c/d");
    // A protobuf public key of the kind secp256k1, with 33 bytes of key data.
    let mut encoded = vec![0x08, 0x02, 0x12, 0x21, 0x02];
    encoded.extend_from_slice(&[0x11; 32]);
    info.public_key = encoded;
    let event = IdentifyEvent::Received { peer_id: keypair.public().to_peer_id().to_bytes(), info };
    assert_eq!(ReceivedConnection::try_from(event), Err(ConversionError::UnexpectedKeyType));
}

#[test]
fn listen_address_that_does_not_decode_gives_no_request() {
    let keypair = Keypair::ed25519_from_bytes([6u8; 32]).unwrap();
    let mut info = info_of(&keypair, "a/b/c/d");
    info.listen_addrs.push(vec![0xff, 0xff, 0xff, 0xff, 0xff, 0xff]);
    let event = IdentifyEvent::Received { peer_id: keypair.public().to_peer_id().to_bytes(), info };
    assert_eq!(ReceivedConnection::try_from(event), Err(ConversionError::InvalidAddress));
}

#[test]
fn observed_address_that_does_not_decode_gives_no_request() {
    let keypair = Keypair::ed25519_from_bytes([6u8; 32]).unwrap();
    let mut info = info_of(&keypair, "a/b/c/d");
    info.observed_addr = vec![0x04, 0x01];
    let event = IdentifyEvent::Received { peer_id: keypair.public().to_peer_id().to_bytes(), info };
    assert_eq!(ReceivedConnection::try_from(event), Err(ConversionError::InvalidAddress));
}

#[test]
fn peer_id_that_does_not_decode_gives_no_request() {
    let keypair = Keypair::ed25519_from_bytes([7u8; 32]).unwrap();
    let event = IdentifyEvent::Received { peer_id: vec![1, 2, 3], info: info_of(&keypair, "a/b/c/d") };
    assert_eq!(ReceivedConnection::try_from(event), Err(ConversionError::InvalidPeerId));
}

#[test]
fn key_is_looked_at_before_addresses_and_peer_id() {
    let keypair = Keypair::ed25519_from_bytes([7u8; 32]).unwrap();
    let mut info = info_of(&keypair, "a/b/c/d");
    info.public_key = Vec::new();
    info.observed_addr = vec![0xff];
    let event = IdentifyEvent::Received { peer_id: vec![1, 2, 3], info };
    assert_eq!(ReceivedConnection::try_from(event), Err(ConversionError::UnexpectedKeyType));
}

#[test]
fn no_listen_addresses_are_in_order() {
    let keypair = Keypair::ed25519_from_bytes([8u8; 32]).unwrap();
    let mut info = info_of(&keypair, "a/b/c/d");
    info.listen_addrs = Vec::new();
    let event = IdentifyEvent::Received { peer_id: keypair.public().to_peer_id().to_bytes(), info };
    let request = ReceivedConnection::try_from(event).unwrap();
    assert!(request.listen_addrs.is_empty());
}

#[test]
fn parts_in_order_make_a_request() {
    let request = ReceivedConnection::from_parts(
        Some("peer".to_string()),
        Some([9u8; 32]),
        Some(vec!["/ip4/1.2.3.4".to_string()]),
        Some("/ip4/5.6.7.8".to_string()),
        "app/1.0/extra/CERT123",
    );
    assert_eq!(
        request,
        Ok(ReceivedConnection {
            peer_id: "peer".to_string(),
            pubkey: [9u8; 32],
            listen_addrs: vec!["/ip4/1.2.3.4".to_string()],
            observed_addr: "/ip4/5.6.7.8".to_string(),
            certificate: Some("CERT123".to_string()),
        })
    );
}

#[test]
fn first_missing_part_names_the_failure() {
    let peer = || Some("peer".to_string());
    let key = || Some([9u8; 32]);
    let listen = || Some(vec!["/ip4/1.2.3.4".to_string()]);
    let observed = || Some("/ip4/5.6.7.8".to_string());
    assert_eq!(
        ReceivedConnection::from_parts(None, None, None, None, "a"),
        Err(ConversionError::UnexpectedKeyType)
    );
    assert_eq!(
        ReceivedConnection::from_parts(None, key(), None, observed(), "a"),
        Err(ConversionError::InvalidAddress)
    );
    assert_eq!(
        ReceivedConnection::from_parts(None, key(), listen(), None, "a"),
        Err(ConversionError::InvalidAddress)
    );
    assert_eq!(
        ReceivedConnection::from_parts(None, key(), listen(), observed(), "a"),
        Err(ConversionError::InvalidPeerId)
    );
    assert!(ReceivedConnection::from_parts(peer(), key(), listen(), observed(), "a").is_ok());
}
