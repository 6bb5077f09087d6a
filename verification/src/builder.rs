//! The configuration of a node: what may be set, what stands in for what is not set,
//! and which settings are refused.

use crate::hexadecimal::{decode, hex_decoded};
use crate::peers::same_bytes;
use crate::stack::{generate_keypair, keypair_from_secret, keypair_of_secret, multiaddr_bytes};
use crate::stack::{multiaddr_with_tcp, parse_multiaddr, with_tcp};
use crate::types::{byte_strings, texts};
use crate::DEFAULT_LISTENING_PORT;
use vstd::prelude::*;

verus! {

/// The address of all interfaces, to which the default port is added where no
/// listening address is configured.
pub const DEFAULT_LISTENING_HOST: &'static str = "/ip4/0.0.0.0";

/// The settings of a node, each absent until it is set.
pub struct P2pNodeBuilder {
    keypair: Option<String>,
    listening_address: Option<String>,
    bootstrap_nodes: Option<Vec<String>>,
    indentify_certificate: Option<String>,
    gossipsub_topics: Option<Vec<String>>,
}

/// The settings of a node as plain values.
pub struct P2pNodeBuilderView {
    pub keypair: Option<Seq<char>>,
    pub listening_address: Option<Seq<char>>,
    pub bootstrap_nodes: Option<Seq<Seq<char>>>,
    pub indentify_certificate: Option<Seq<char>>,
    pub gossipsub_topics: Option<Seq<Seq<char>>>,
}

/// A configuration that was found in order.
pub struct NodeConfig {
    /// The node's keypair: the configured one, or a fresh one.
    pub keypair: libp2p::identity::Keypair,
    /// The address to listen on, in binary form.
    pub listening_address: Vec<u8>,
    /// The addresses by which to enter the network, each once, in binary form.
    pub bootstrap_nodes: Vec<Vec<u8>>,
    /// The certificate by which the node makes itself known, if any.
    pub identify_certificate: Option<String>,
    /// The names of the topics to subscribe to, each once.
    pub gossipsub_topics: Vec<String>,
}

/// Why a configuration is refused.
#[derive(Clone, Copy, Debug, PartialEq, Eq)]
pub enum ConfigError {
    /// The keypair is not the hexadecimal text of 32 bytes.
    InvalidKeypair,
    /// The listening address spells no address.
    InvalidListeningAddress,
    /// One of the bootstrap addresses spells no address.
    InvalidBootstrapNode,
}

impl View for P2pNodeBuilder {
    type V = P2pNodeBuilderView;

    closed spec fn view(&self) -> P2pNodeBuilderView {
        P2pNodeBuilderView {
            keypair: text_of(self.keypair),
            listening_address: text_of(self.listening_address),
            bootstrap_nodes: match self.bootstrap_nodes {
                Some(nodes) => Some(texts(nodes@)),
                None => None,
            },
            indentify_certificate: text_of(self.indentify_certificate),
            gossipsub_topics: match self.gossipsub_topics {
                Some(topics) => Some(texts(topics@)),
                None => None,
            },
        }
    }
}

/// The text of a string that may be absent.
pub open spec fn text_of(text: Option<String>) -> Option<Seq<char>> {
    match text {
        Some(t) => Some(t@),
        None => None,
    }
}

/// The items of `items` in the order of their first occurrence, each once.
pub open spec fn distinct<A>(items: Seq<A>) -> Seq<A>
    decreases items.len(),
{
    if items.len() == 0 {
        Seq::empty()
    } else {
        let earlier = distinct(items.drop_last());
        if earlier.contains(items.last()) {
            earlier
        } else {
            earlier.push(items.last())
        }
    }
}

/// `distinct` keeps every item and none twice.
pub proof fn lemma_distinct<A>(items: Seq<A>)
    ensures
        distinct(items).no_duplicates(),
        forall|x: A| distinct(items).contains(x) <==> items.contains(x),
    decreases items.len(),
{
    if items.len() > 0 {
        let earlier = items.drop_last();
        lemma_distinct(earlier);
        let kept = distinct(earlier);
        let out = distinct(items);
        assert forall|x: A| out.contains(x) <==> items.contains(x) by {
            if items.contains(x) {
                let k = choose|k: int| 0 <= k < items.len() && items[k] == x;
                if k < earlier.len() {
                    assert(earlier[k] == x);
                    assert(earlier.contains(x));
                }
                if kept.contains(x) {
                    let at = choose|at: int| 0 <= at < kept.len() && kept[at] == x;
                    assert(out[at] == x);
                } else {
                    assert(out[kept.len() as int] == x);
                }
            }
            if out.contains(x) && kept.contains(x) {
                assert(earlier.contains(x));
            }
        }
    }
}

/// Whether a configured keypair is in order: the hexadecimal text of 32 bytes. None
/// configured is in order.
pub open spec fn keypair_in_order(keypair: Option<Seq<char>>) -> bool {
    match keypair {
        Some(text) => hex_decoded(text) is Some && hex_decoded(text)->0.len() == 32,
        None => true,
    }
}

/// The address a node listens on: the configured one or, where none is configured,
/// all interfaces at the default port. `None` where the text spells no address.
pub open spec fn listening_address_of(configured: Option<Seq<char>>) -> Option<Seq<u8>> {
    match configured {
        Some(text) => multiaddr_bytes(text),
        None => match multiaddr_bytes(DEFAULT_LISTENING_HOST@) {
            Some(host) => multiaddr_with_tcp(host, DEFAULT_LISTENING_PORT),
            None => None,
        },
    }
}

/// The binary form of each address of `spelled`, in order; `None` where one of them
/// spells no address.
pub open spec fn parsed_addresses(spelled: Seq<Seq<char>>) -> Option<Seq<Seq<u8>>> {
    if forall|i: int| 0 <= i < spelled.len() ==> (#[trigger] multiaddr_bytes(spelled[i])) is Some {
        Some(Seq::new(spelled.len(), |i: int| multiaddr_bytes(spelled[i])->0))
    } else {
        None
    }
}

/// The items of a list that may be absent; none where it is absent.
pub open spec fn listed<A>(items: Option<Seq<A>>) -> Seq<A> {
    match items {
        Some(l) => l,
        None => Seq::empty(),
    }
}

/// What is wrong with a configuration: the keypair is looked at first, the
/// listening address next, the bootstrap addresses last. `None` where it is in order.
pub open spec fn config_error(settings: P2pNodeBuilderView) -> Option<ConfigError> {
    if !keypair_in_order(settings.keypair) {
        Some(ConfigError::InvalidKeypair)
    } else if listening_address_of(settings.listening_address) is None {
        Some(ConfigError::InvalidListeningAddress)
    } else if parsed_addresses(listed(settings.bootstrap_nodes)) is None {
        Some(ConfigError::InvalidBootstrapNode)
    } else {
        None
    }
}

/// Whether `wanted` is among `items`.
fn holds_text(items: &Vec<String>, wanted: &String) -> (found: bool)
    ensures
        found == texts(items@).contains(wanted@),
{
    let mut i: usize = 0;
    while i < items.len()
        invariant
            i <= items.len(),
            forall|j: int| 0 <= j < i ==> texts(items@)[j] != wanted@,
        decreases items.len() - i,
    {
        if items[i] == *wanted {
            assert(texts(items@)[i as int] == wanted@);
            return true;
        }
        i = i + 1;
    }
    false
}

/// Whether `wanted` is among `items`.
fn holds_bytes(items: &Vec<Vec<u8>>, wanted: &Vec<u8>) -> (found: bool)
    ensures
        found == byte_strings(items@).contains(wanted@),
{
    let mut i: usize = 0;
    while i < items.len()
        invariant
            i <= items.len(),
            forall|j: int| 0 <= j < i ==> byte_strings(items@)[j] != wanted@,
        decreases items.len() - i,
    {
        if same_bytes(items[i].as_slice(), wanted.as_slice()) {
            assert(byte_strings(items@)[i as int] == wanted@);
            return true;
        }
        i = i + 1;
    }
    false
}

/// The texts of `items` in the order of their first occurrence, each once.
fn distinct_texts(items: &Vec<String>) -> (kept: Vec<String>)
    ensures
        texts(kept@) == distinct(texts(items@)),
{
    let mut kept: Vec<String> = Vec::new();
    let mut i: usize = 0;
    while i < items.len()
        invariant
            i <= items.len(),
            texts(kept@) == distinct(texts(items@).take(i as int)),
        decreases items.len() - i,
    {
        let ghost upto = texts(items@).take(i + 1);
        assert(upto.drop_last() == texts(items@).take(i as int));
        if !holds_text(&kept, &items[i]) {
            kept.push(items[i].clone());
        }
        i = i + 1;
    }
    assert(texts(items@).take(i as int) == texts(items@));
    kept
}

/// The byte strings of `items` in the order of their first occurrence, each once.
fn distinct_bytes(items: &Vec<Vec<u8>>) -> (kept: Vec<Vec<u8>>)
    ensures
        byte_strings(kept@) == distinct(byte_strings(items@)),
{
    let mut kept: Vec<Vec<u8>> = Vec::new();
    let mut i: usize = 0;
    while i < items.len()
        invariant
            i <= items.len(),
            byte_strings(kept@) == distinct(byte_strings(items@).take(i as int)),
        decreases items.len() - i,
    {
        let ghost upto = byte_strings(items@).take(i + 1);
        assert(upto.drop_last() == byte_strings(items@).take(i as int));
        if !holds_bytes(&kept, &items[i]) {
            kept.push(items[i].clone());
        }
        i = i + 1;
    }
    assert(byte_strings(items@).take(i as int) == byte_strings(items@));
    kept
}

/// The binary form of each address of `spelled`, in order; `None` as soon as one of
/// them spells no address.
fn parse_addresses(spelled: &Vec<String>) -> (parsed: Option<Vec<Vec<u8>>>)
    ensures
        match parsed {
            Some(p) => parsed_addresses(texts(spelled@)) == Some(byte_strings(p@)),
            None => parsed_addresses(texts(spelled@)) is None,
        },
{
    let ghost wanted = texts(spelled@);
    let mut parsed: Vec<Vec<u8>> = Vec::new();
    let mut i: usize = 0;
    while i < spelled.len()
        invariant
            wanted == texts(spelled@),
            i <= spelled.len(),
            parsed.len() == i,
            forall|j: int| 0 <= j < i ==> multiaddr_bytes(#[trigger] wanted[j]) == Some(parsed[j]@),
        decreases spelled.len() - i,
    {
        match parse_multiaddr(spelled[i].as_str()) {
            Some(bytes) => {
                parsed.push(bytes);
            },
            None => {
                assert(multiaddr_bytes(wanted[i as int]) is None);
                return None;
            },
        }
        i = i + 1;
    }
    Some(parsed)
}

/// The address a node listens on, from the configured text if there is one.
fn listening_address(configured: Option<String>) -> (address: Option<Vec<u8>>)
    ensures
        match address {
            Some(a) => listening_address_of(text_of(configured)) == Some(a@),
            None => listening_address_of(text_of(configured)) is None,
        },
{
    match configured {
        Some(text) => parse_multiaddr(text.as_str()),
        None => match parse_multiaddr(DEFAULT_LISTENING_HOST) {
            Some(host) => with_tcp(host.as_slice(), DEFAULT_LISTENING_PORT),
            None => None,
        },
    }
}

impl P2pNodeBuilder {
    /// A builder with nothing set.
    pub fn new() -> (builder: P2pNodeBuilder)
        ensures
            builder@ == (P2pNodeBuilderView {
                keypair: None,
                listening_address: None,
                bootstrap_nodes: None,
                indentify_certificate: None,
                gossipsub_topics: None,
            }),
    {
        P2pNodeBuilder {
            keypair: None,
            listening_address: None,
            bootstrap_nodes: None,
            indentify_certificate: None,
            gossipsub_topics: None,
        }
    }

    /// Sets the keypair: the 32 secret bytes of an Ed25519 key, in hexadecimal.
    pub fn with_keypair(self, keypair: String) -> (builder: P2pNodeBuilder)
        ensures
            builder@ == (P2pNodeBuilderView { keypair: Some(keypair@), ..self@ }),
    {
        P2pNodeBuilder { keypair: Some(keypair), ..self }
    }

    /// Sets the address to listen on, such as "/ip4/0.0.0.0/tcp/1123".
    pub fn with_listening_address(self, listening_address: String) -> (builder: P2pNodeBuilder)
        ensures
            builder@ == (P2pNodeBuilderView { listening_address: Some(listening_address@), ..self@ }),
    {
        P2pNodeBuilder { listening_address: Some(listening_address), ..self }
    }

    /// Sets the addresses by which the node enters the network.
    pub fn with_bootstrap_nodes(self, bootstrap_nodes: Vec<String>) -> (builder: P2pNodeBuilder)
        ensures
            builder@ == (P2pNodeBuilderView {
                bootstrap_nodes: Some(texts(bootstrap_nodes@)),
                ..self@
            }),
    {
        P2pNodeBuilder { bootstrap_nodes: Some(bootstrap_nodes), ..self }
    }

    /// Sets the certificate by which the node makes itself known to its peers.
    pub fn with_indentify_certificate(self, indentify_certificate: String) -> (builder:
        P2pNodeBuilder)
        ensures
            builder@ == (P2pNodeBuilderView {
                indentify_certificate: Some(indentify_certificate@),
                ..self@
            }),
    {
        P2pNodeBuilder { indentify_certificate: Some(indentify_certificate), ..self }
    }

    /// Sets the names of the topics to subscribe to.
    pub fn with_gossipsub_topics(self, gossipsub_topics: Vec<String>) -> (builder: P2pNodeBuilder)
        ensures
            builder@ == (P2pNodeBuilderView {
                gossipsub_topics: Some(texts(gossipsub_topics@)),
                ..self@
            }),
    {
        P2pNodeBuilder { gossipsub_topics: Some(gossipsub_topics), ..self }
    }

    /// Checks the settings and fills in what is not set: a fresh keypair, all
    /// interfaces at the default port, no bootstrap address, no topic. A configured
    /// keypair is the one of its secret. A keypair that
    /// is not the hexadecimal text of 32 bytes and an address that spells none are
    /// refused. Bootstrap addresses and topics come out each once.
    pub fn build(self) -> (config: Result<NodeConfig, ConfigError>)
        ensures
            match config {
                Ok(c) => {
                    &&& config_error(self@) is None
                    &&& self@.keypair matches Some(text) ==> keypair_of_secret(hex_decoded(text)->0)
                        == Some(c.keypair)
                    &&& Some(c.listening_address@) == listening_address_of(self@.listening_address)
                    &&& byte_strings(c.bootstrap_nodes@) == distinct(
                        parsed_addresses(listed(self@.bootstrap_nodes))->0,
                    )
                    &&& byte_strings(c.bootstrap_nodes@).no_duplicates()
                    &&& text_of(c.identify_certificate) == self@.indentify_certificate
                    &&& texts(c.gossipsub_topics@) == distinct(listed(self@.gossipsub_topics))
                    &&& texts(c.gossipsub_topics@).no_duplicates()
                },
                Err(e) => config_error(self@) == Some(e),
            },
    {
        let keypair = match self.keypair {
            Some(text) => {
                let secret = match decode(text.as_str()) {
                    Ok(bytes) => bytes,
                    Err(_) => {
                        return Err(ConfigError::InvalidKeypair);
                    },
                };
                match keypair_from_secret(secret) {
                    Ok(keypair) => keypair,
                    Err(_) => {
                        return Err(ConfigError::InvalidKeypair);
                    },
                }
            },
            None => generate_keypair(),
        };
        let listening_address = match listening_address(self.listening_address) {
            Some(address) => address,
            None => {
                return Err(ConfigError::InvalidListeningAddress);
            },
        };
        let bootstrap_nodes = match self.bootstrap_nodes {
            Some(spelled) => match parse_addresses(&spelled) {
                Some(parsed) => distinct_bytes(&parsed),
                None => {
                    return Err(ConfigError::InvalidBootstrapNode);
                },
            },
            None => {
                let none: Vec<Vec<u8>> = Vec::new();
                none
            },
        };
        let gossipsub_topics = match self.gossipsub_topics {
            Some(topics) => distinct_texts(&topics),
            None => {
                let none: Vec<String> = Vec::new();
                none
            },
        };
        proof {
            lemma_distinct(parsed_addresses(listed(self@.bootstrap_nodes))->0);
            lemma_distinct(listed(self@.gossipsub_topics));
        }
        Ok(
            NodeConfig {
                keypair,
                listening_address,
                bootstrap_nodes,
                identify_certificate: self.indentify_certificate,
                gossipsub_topics,
            },
        )
    }
}

} // verus!
