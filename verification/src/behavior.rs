//! What a node tells its peers of itself.

use crate::builder::text_of;
use crate::types::{certificate_of, first_slash, lemma_first_slash, segment};
use vstd::prelude::*;

verus! {

/// The protocol version under which the node takes part in the routing table.
pub const PROTOCOL_VERSION: &'static str = "/pragma/kad/0.1.0";

/// Name and version of the node's software, the first three parts of its agent string.
pub const AGENT_VERSION: &'static str = "/pragma-node/0.1.0";

/// What stands in the agent string in place of a certificate where the node has none.
pub const UNCERTIFIED: &'static str = "uncertified";

/// The time between two refreshes of the routing table, in milliseconds.
pub const BOOTSTRAP_INTERVAL_MILLIS: u64 = 500;

/// The agent string of a node: name and version of its software, a '/', and its
/// certificate or the word that says it has none.
pub open spec fn agent_version_of(certificate: Option<Seq<char>>) -> Seq<char> {
    AGENT_VERSION@ + seq!['/'] + match certificate {
        Some(c) => c,
        None => UNCERTIFIED@,
    }
}

/// The agent string under which a node with this certificate makes itself known.
pub fn agent_version(certificate: Option<String>) -> (text: String)
    ensures
        text@ == agent_version_of(text_of(certificate)),
{
    proof {
        reveal_strlit("/");
    }
    let text = AGENT_VERSION.to_owned().concat("/");
    match certificate {
        Some(c) => text.concat(c.as_str()),
        None => text.concat(UNCERTIFIED),
    }
}

/// What a peer reads as the certificate in a node's agent string is what the node
/// put there, as far as its first '/'.
pub proof fn lemma_certificate_read_back(certificate: Option<Seq<char>>)
    ensures
        certificate_of(agent_version_of(certificate)) == Some(
            match certificate {
                Some(c) => c.take(first_slash(c)),
                None => UNCERTIFIED@,
            },
        ),
{
    reveal_strlit("/pragma-node/0.1.0");
    reveal_strlit("uncertified");
    let last = match certificate {
        Some(c) => c,
        None => UNCERTIFIED@,
    };
    let whole = agent_version_of(certificate);
    // The first part is empty, the string beginning with a '/'. The second is the name.
    let second = whole.skip(1);
    lemma_first_slash(second, 11);
    assert(segment(whole, 3) == segment(second, 2));
    // The third part is the version.
    let third = second.skip(12);
    lemma_first_slash(third, 5);
    // The fourth part begins where the certificate was put.
    let fourth = third.skip(6);
    assert(fourth =~= last);
    assert(segment(third, 1) == segment(fourth, 0));
    if certificate is None {
        lemma_first_slash(last, last.len() as int);
    }
}

} // verus!
