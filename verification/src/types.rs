//! The records that the node exchanges with the application, and the identity events
//! they are made from.

use crate::stack::{ed25519_key, ed25519_public_key, multiaddr_text, multiaddr_to_text};
use crate::stack::{peer_id_base58, peer_id_text};
use vstd::prelude::*;

verus! {

/// A command of the application to the node.
#[derive(Debug, PartialEq, Eq)]
pub enum P2pRequest {
    /// Publish these bytes on the topic of this name.
    Broadcast(String, Vec<u8>),
}

/// A peer that asks to join, as the deciding side sees it.
#[derive(Debug, PartialEq, Eq)]
pub struct ReceivedConnection {
    /// The peer's identifier, in base58.
    pub peer_id: String,
    /// The peer's Ed25519 public key.
    pub pubkey: [u8; 32],
    /// The addresses the peer says it listens on, as text.
    pub listen_addrs: Vec<String>,
    /// The address the peer was seen at, as text.
    pub observed_addr: String,
    /// The certificate the peer presents in its agent string, if any.
    pub certificate: Option<String>,
}

/// A gossip message as delivered to the application.
#[derive(Debug, PartialEq, Eq)]
pub struct ReceivedMessage {
    /// The publisher's identifier in base58; absent for an anonymous message.
    pub source: Option<String>,
    /// The payload.
    pub data: Vec<u8>,
    /// The name of the topic.
    pub topic: String,
}

/// What a peer tells of itself in the identity exchange.
#[derive(Debug, PartialEq, Eq)]
pub struct IdentifyInfo {
    /// The peer's public key, in protobuf form.
    pub public_key: Vec<u8>,
    /// The addresses the peer listens on, each in binary form.
    pub listen_addrs: Vec<Vec<u8>>,
    /// The address the peer was seen at, in binary form.
    pub observed_addr: Vec<u8>,
    /// Name and version of the peer's software, free text.
    pub agent_version: String,
}

/// An event of the identity exchange. Peer identifiers are in binary form.
#[derive(Debug, PartialEq, Eq)]
pub enum IdentifyEvent {
    /// A peer has told of itself.
    Received { peer_id: Vec<u8>, info: IdentifyInfo },
    /// This node has answered a peer's question.
    Sent { peer_id: Vec<u8> },
    /// This node has pushed its own information to a peer.
    Pushed { peer_id: Vec<u8>, info: IdentifyInfo },
    /// The exchange with a peer failed.
    Error { peer_id: Vec<u8> },
}

/// Why an identity event gives no connection request.
#[derive(Clone, Copy, Debug, PartialEq, Eq)]
pub enum ConversionError {
    /// The event is not one in which a peer tells of itself.
    InvalidEvent,
    /// The public key does not decode, or is no Ed25519 key.
    UnexpectedKeyType,
    /// An address does not decode.
    InvalidAddress,
    /// The peer identifier does not decode.
    InvalidPeerId,
}

/// The byte strings that `items` hold, in order.
pub open spec fn byte_strings(items: Seq<Vec<u8>>) -> Seq<Seq<u8>> {
    Seq::new(items.len(), |i: int| items[i]@)
}

/// The texts that `items` hold, in order.
pub open spec fn texts(items: Seq<String>) -> Seq<Seq<char>> {
    Seq::new(items.len(), |i: int| items[i]@)
}

/// A connection request as plain values.
pub struct ReceivedConnectionView {
    pub peer_id: Seq<char>,
    pub pubkey: Seq<u8>,
    pub listen_addrs: Seq<Seq<char>>,
    pub observed_addr: Seq<char>,
    pub certificate: Option<Seq<char>>,
}

impl View for ReceivedConnection {
    type V = ReceivedConnectionView;

    open spec fn view(&self) -> ReceivedConnectionView {
        ReceivedConnectionView {
            peer_id: self.peer_id@,
            pubkey: self.pubkey@,
            listen_addrs: texts(self.listen_addrs@),
            observed_addr: self.observed_addr@,
            certificate: match self.certificate {
                Some(c) => Some(c@),
                None => None,
            },
        }
    }
}

/// A delivered message as plain values.
pub struct ReceivedMessageView {
    pub source: Option<Seq<char>>,
    pub data: Seq<u8>,
    pub topic: Seq<char>,
}

impl View for ReceivedMessage {
    type V = ReceivedMessageView;

    open spec fn view(&self) -> ReceivedMessageView {
        ReceivedMessageView {
            source: match self.source {
                Some(s) => Some(s@),
                None => None,
            },
            data: self.data@,
            topic: self.topic@,
        }
    }
}

impl Clone for ReceivedMessage {
    /// A message with the same publisher, payload and topic: every receiver of the
    /// application gets its own.
    fn clone(&self) -> (copy: ReceivedMessage)
        ensures
            copy@ == self@,
    {
        ReceivedMessage {
            source: match &self.source {
                Some(source) => Some(source.clone()),
                None => None,
            },
            data: self.data.clone(),
            topic: self.topic.clone(),
        }
    }
}

/// Index of the first '/' in `text`, or the length of `text` where it holds none.
pub open spec fn first_slash(text: Seq<char>) -> int
    decreases text.len(),
{
    if text.len() == 0 || text[0] == '/' {
        0
    } else {
        1 + first_slash(text.skip(1))
    }
}

/// The `n`-th of the parts into which the '/' characters cut `text`, counted from 0;
/// `None` where `text` has fewer parts.
pub open spec fn segment(text: Seq<char>, n: nat) -> Option<Seq<char>>
    decreases n,
{
    let cut = first_slash(text);
    if n == 0 {
        Some(text.take(cut))
    } else if cut == text.len() {
        None
    } else {
        segment(text.skip(cut + 1), (n - 1) as nat)
    }
}

/// The certificate that an agent string carries: its fourth part.
pub open spec fn certificate_of(agent_version: Seq<char>) -> Option<Seq<char>> {
    segment(agent_version, 3)
}

/// `first_slash` is the place of a '/' that no other '/' precedes, or the end.
pub proof fn lemma_first_slash(text: Seq<char>, cut: int)
    requires
        0 <= cut <= text.len(),
        forall|i: int| 0 <= i < cut ==> text[i] != '/',
        cut == text.len() || text[cut] == '/',
    ensures
        first_slash(text) == cut,
    decreases cut,
{
    if cut > 0 {
        lemma_first_slash(text.skip(1), cut - 1);
    }
}

/// The fourth '/'-separated part of `agent_version`, which by convention is the peer's
/// certificate; `None` where the string has fewer than four parts.
pub fn extract_certificate_from_agent_version(agent_version: &str) -> (certificate: Option<String>)
    ensures
        match certificate {
            Some(c) => certificate_of(agent_version@) == Some(c@),
            None => certificate_of(agent_version@) is None,
        },
{
    let ghost text = agent_version@;
    let len: usize = agent_version.unicode_len();
    let mut start: usize = 0;
    let mut passed: usize = 0;
    let mut i: usize = 0;
    assert(text.skip(0) == text);
    while i < len
        invariant
            len == text.len(),
            text == agent_version@,
            start <= i <= len,
            passed <= 3,
            forall|j: int| start <= j < i ==> text[j] != '/',
            segment(text, 3) == segment(text.skip(start as int), (3 - passed) as nat),
        decreases len - i,
    {
        let c = agent_version.get_char(i);
        if c == '/' {
            let ghost tail = text.skip(start as int);
            proof {
                lemma_first_slash(tail, i - start);
            }
            if passed == 3 {
                let part = agent_version.substring_char(start, i);
                return Some(part.to_owned());
            }
            assert(tail.skip(i - start + 1) == text.skip(i + 1));
            passed = passed + 1;
            start = i + 1;
        }
        i = i + 1;
    }
    proof {
        lemma_first_slash(text.skip(start as int), len - start);
    }
    if passed == 3 {
        let part = agent_version.substring_char(start, len);
        Some(part.to_owned())
    } else {
        None
    }
}

/// The texts of `addresses`, in order; `None` where one of them encodes no address.
pub open spec fn address_texts(addresses: Seq<Seq<u8>>) -> Option<Seq<Seq<char>>> {
    if forall|i: int|
        0 <= i < addresses.len() ==> (#[trigger] multiaddr_text(addresses[i])) is Some {
        Some(Seq::new(addresses.len(), |i: int| multiaddr_text(addresses[i])->0))
    } else {
        None
    }
}

/// The first thing wrong with a peer's information, the key being looked at first,
/// the addresses next and the identifier last; `None` where all of it is in order.
pub open spec fn first_failure(key: bool, listen: bool, observed: bool, peer: bool) -> Option<
    ConversionError,
> {
    if !key {
        Some(ConversionError::UnexpectedKeyType)
    } else if !listen || !observed {
        Some(ConversionError::InvalidAddress)
    } else if !peer {
        Some(ConversionError::InvalidPeerId)
    } else {
        None
    }
}

/// The connection request that an identity event gives rise to, or why it gives none.
pub open spec fn connection_request(event: IdentifyEvent) -> Result<
    ReceivedConnectionView,
    ConversionError,
> {
    match event {
        IdentifyEvent::Received { peer_id, info } => {
            let key = ed25519_key(info.public_key@);
            let listen = address_texts(byte_strings(info.listen_addrs@));
            let observed = multiaddr_text(info.observed_addr@);
            let peer = peer_id_text(peer_id@);
            match first_failure(key is Some, listen is Some, observed is Some, peer is Some) {
                Some(e) => Err(e),
                None => Ok(
                    ReceivedConnectionView {
                        peer_id: peer->0,
                        pubkey: key->0,
                        listen_addrs: listen->0,
                        observed_addr: observed->0,
                        certificate: certificate_of(info.agent_version@),
                    },
                ),
            }
        },
        _ => Err(ConversionError::InvalidEvent),
    }
}

/// The text of each address, in order; `None` as soon as one encodes no address.
fn addresses_to_text(addresses: &Vec<Vec<u8>>) -> (listed: Option<Vec<String>>)
    ensures
        match listed {
            Some(l) => address_texts(byte_strings(addresses@)) == Some(texts(l@)),
            None => address_texts(byte_strings(addresses@)) is None,
        },
{
    let ghost binary = byte_strings(addresses@);
    let mut listed: Vec<String> = Vec::new();
    let mut i: usize = 0;
    while i < addresses.len()
        invariant
            binary == byte_strings(addresses@),
            i <= addresses.len(),
            listed.len() == i,
            forall|j: int| 0 <= j < i ==> multiaddr_text(#[trigger] binary[j]) == Some(listed[j]@),
        decreases addresses.len() - i,
    {
        match multiaddr_to_text(addresses[i].as_slice()) {
            Some(text) => {
                listed.push(text);
            },
            None => {
                assert(multiaddr_text(binary[i as int]) is None);
                return None;
            },
        }
        i = i + 1;
    }
    Some(listed)
}

impl ReceivedConnection {
    /// Puts a connection request together from what the stack made of a peer's
    /// information, each part absent where the stack could make nothing of it.
    /// The certificate is read from the agent string.
    pub fn from_parts(
        peer_id: Option<String>,
        pubkey: Option<[u8; 32]>,
        listen_addrs: Option<Vec<String>>,
        observed_addr: Option<String>,
        agent_version: &str,
    ) -> (request: Result<ReceivedConnection, ConversionError>)
        ensures
            match request {
                Ok(c) => {
                    &&& first_failure(
                        pubkey is Some,
                        listen_addrs is Some,
                        observed_addr is Some,
                        peer_id is Some,
                    ) is None
                    &&& peer_id == Some(c.peer_id)
                    &&& pubkey == Some(c.pubkey)
                    &&& listen_addrs == Some(c.listen_addrs)
                    &&& observed_addr == Some(c.observed_addr)
                    &&& c@.certificate == certificate_of(agent_version@)
                },
                Err(e) => first_failure(
                    pubkey is Some,
                    listen_addrs is Some,
                    observed_addr is Some,
                    peer_id is Some,
                ) == Some(e),
            },
    {
        let pubkey = match pubkey {
            Some(key) => key,
            None => { return Err(ConversionError::UnexpectedKeyType); },
        };
        let listen_addrs = match listen_addrs {
            Some(listed) => listed,
            None => { return Err(ConversionError::InvalidAddress); },
        };
        let observed_addr = match observed_addr {
            Some(text) => text,
            None => { return Err(ConversionError::InvalidAddress); },
        };
        let peer_id = match peer_id {
            Some(text) => text,
            None => { return Err(ConversionError::InvalidPeerId); },
        };
        let certificate = extract_certificate_from_agent_version(agent_version);
        Ok(ReceivedConnection { peer_id, pubkey, listen_addrs, observed_addr, certificate })
    }

    /// The connection request of a peer that has told of itself. Any other event, a
    /// key that is no Ed25519 key, and an address or identifier that does not decode
    /// give no request.
    pub fn try_from(event: IdentifyEvent) -> (request: Result<ReceivedConnection, ConversionError>)
        ensures
            match request {
                Ok(c) => connection_request(event) == Ok::<_, ConversionError>(c@),
                Err(e) => connection_request(event) == Err::<ReceivedConnectionView, _>(e),
            },
    {
        match event {
            IdentifyEvent::Received { peer_id, info } => {
                let pubkey = ed25519_public_key(info.public_key.as_slice());
                let listen_addrs = addresses_to_text(&info.listen_addrs);
                let observed_addr = multiaddr_to_text(info.observed_addr.as_slice());
                let peer_text = peer_id_base58(peer_id.as_slice());
                ReceivedConnection::from_parts(
                    peer_text,
                    pubkey,
                    listen_addrs,
                    observed_addr,
                    info.agent_version.as_str(),
                )
            },
            _ => Err(ConversionError::InvalidEvent),
        }
    }
}

} // verus!
