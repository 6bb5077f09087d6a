//! The topics a node is subscribed to: from the identifier a message carries to the
//! name the application knows.

use crate::stack::{explicit_peers, gossipsub_subscribe, subscriptions, topic_hash, Gossipsub};
use crate::stack::SubscriptionFailure;
use vstd::prelude::*;

verus! {

/// The identifier under which the topic `name` travels: the identity hash, the name itself.
pub open spec fn topic_id(name: Seq<char>) -> Seq<char> {
    name
}

/// A topic's identifier and its name.
pub struct TopicEntry {
    hash: String,
    name: String,
}

/// No two of `entries` have the same identifier.
spec fn distinct_hashes(entries: Seq<TopicEntry>) -> bool {
    forall|i: int, j: int| 0 <= i < j < entries.len() ==> entries[i].hash@ != entries[j].hash@
}

/// Each of `entries` has the identifier of its name.
spec fn own_hashes(entries: Seq<TopicEntry>) -> bool {
    forall|i: int|
        0 <= i < entries.len() ==> (#[trigger] entries[i]).hash@ == topic_id(entries[i].name@)
}

/// The subscriptions of a node, no identifier twice, every name under its own
/// identifier.
pub struct TopicRegistry {
    entries: Vec<TopicEntry>,
}

impl View for TopicRegistry {
    type V = Map<Seq<char>, Seq<char>>;

    /// The name recorded for each identifier.
    closed spec fn view(&self) -> Map<Seq<char>, Seq<char>> {
        Map::new(
            |hash: Seq<char>| self.position(hash) is Some,
            |hash: Seq<char>| self.entries[self.position(hash)->0].name@,
        )
    }
}

impl TopicRegistry {
    /// Where the entry of `hash` stands, if there is one.
    closed spec fn position(&self, hash: Seq<char>) -> Option<int> {
        if exists|i: int| 0 <= i < self.entries.len() && self.entries[i].hash@ == hash {
            Some(choose|i: int| 0 <= i < self.entries.len() && self.entries[i].hash@ == hash)
        } else {
            None
        }
    }

    /// No identifier has two entries, and every entry has the identifier of its name.
    #[verifier::type_invariant]
    closed spec fn distinct_identifiers(&self) -> bool {
        distinct_hashes(self.entries@) && own_hashes(self.entries@)
    }

    /// A registry without subscriptions.
    pub fn new() -> (registry: TopicRegistry)
        ensures
            registry@ == Map::<Seq<char>, Seq<char>>::empty(),
    {
        TopicRegistry { entries: Vec::new() }
    }

    /// Index of the entry of `hash`, if there is one.
    fn find(&self, hash: &String) -> (found: Option<usize>)
        ensures
            match found {
                Some(i) => i < self.entries.len() && self.position(hash@) == Some(i as int),
                None => self.position(hash@) is None,
            },
    {
        proof {
            use_type_invariant(self);
        }
        let mut i: usize = 0;
        while i < self.entries.len()
            invariant
                self.distinct_identifiers(),
                i <= self.entries.len(),
                forall|j: int| 0 <= j < i ==> self.entries[j].hash@ != hash@,
            decreases self.entries.len() - i,
        {
            if self.entries[i].hash == *hash {
                return Some(i);
            }
            i = i + 1;
        }
        None
    }

    /// The name recorded for the identifier `hash`, which is the name that the
    /// identifier was made from; `None` where the node has no record of it, which is no
    /// error.
    pub fn resolve(&self, hash: &str) -> (name: Option<String>)
        ensures
            match name {
                Some(n) => self@.contains_key(hash@) && self@[hash@] == n@ && hash@ == topic_id(n@),
                None => !self@.contains_key(hash@),
            },
    {
        proof {
            use_type_invariant(self);
        }
        let key = hash.to_owned();
        match self.find(&key) {
            Some(i) => Some(self.entries[i].name.clone()),
            None => None,
        }
    }

    /// The number of identifiers on record.
    pub fn len(&self) -> (count: usize)
        ensures
            count == self@.dom().len(),
            self@.dom().finite(),
    {
        proof {
            use_type_invariant(self);
            self.lemma_domain();
        }
        self.entries.len()
    }

    /// The identifiers on record are as many as the entries.
    proof fn lemma_domain(&self)
        requires
            self.distinct_identifiers(),
        ensures
            self@.dom().finite(),
            self@.dom().len() == self.entries.len(),
    {
        let hashes = Seq::new(self.entries.len() as nat, |i: int| self.entries[i].hash@);
        assert forall|hash: Seq<char>| self@.dom().contains(hash) <==> hashes.to_set().contains(
            hash,
        ) by {
            if self@.dom().contains(hash) {
                assert(hashes[self.position(hash)->0] == hash);
            }
        }
        assert(self@.dom() =~= hashes.to_set());
        hashes.unique_seq_to_set();
    }

    /// Records `name` under its identifier `hash`, in place of what was recorded there.
    fn record(&mut self, hash: String, name: String)
        requires
            hash@ == topic_id(name@),
        ensures
            final(self)@ == old(self)@.insert(hash@, name@),
    {
        let ghost before = *self;
        proof {
            use_type_invariant(&*self);
        }
        match self.find(&hash) {
            Some(i) => {
                let mut entries: Vec<TopicEntry> = Vec::new();
                std::mem::swap(&mut self.entries, &mut entries);
                entries.set(i, TopicEntry { hash, name });
                std::mem::swap(&mut self.entries, &mut entries);
                assert forall|h: Seq<char>| before.position(h) == self.position(h) by {
                    if before.position(h) is Some {
                        assert(self.entries[before.position(h)->0].hash@ == h);
                    }
                }
            },
            None => {
                let mut entries: Vec<TopicEntry> = Vec::new();
                std::mem::swap(&mut self.entries, &mut entries);
                entries.push(TopicEntry { hash, name });
                std::mem::swap(&mut self.entries, &mut entries);
                let ghost last = before.entries.len() as int;
                assert forall|h: Seq<char>| h != hash@ implies before.position(h) == self.position(
                    h,
                ) by {
                    if before.position(h) is Some {
                        assert(self.entries[before.position(h)->0].hash@ == h);
                    }
                }
                assert(self.entries[last].hash@ == hash@);
            },
        }
    }

    /// Takes the gossip layer's answer to a subscription to `name` into the registry.
    /// On any acceptance, whether the layer was subscribed before or not, `name` stands
    /// recorded under its identifier and the identifier is returned. On a refusal the
    /// registry stays as it was and the refusal is handed on.
    pub fn subscribed(&mut self, name: &str, answer: Result<bool, SubscriptionFailure>) -> (id:
        Result<String, SubscriptionFailure>)
        ensures
            match id {
                Ok(hash) => {
                    &&& answer is Ok
                    &&& hash@ == topic_id(name@)
                    &&& final(self)@ == old(self)@.insert(topic_id(name@), name@)
                },
                Err(e) => answer == Err::<bool, _>(e) && final(self)@ == old(self)@,
            },
    {
        match answer {
            Ok(_) => {
                let hash = topic_hash(name);
                self.record(hash.clone(), name.to_owned());
                Ok(hash)
            },
            Err(e) => Err(e),
        }
    }

    /// Subscribes the gossip layer to the topic `name` and records the topic. Returns
    /// the topic's identifier, under which `resolve` gives `name` from now on. The
    /// gossip layer of a node allows every topic, so the subscription succeeds,
    /// whether the layer was subscribed to the topic before or not. Afterwards the
    /// layer is subscribed to the topic beside what it was subscribed to, and its
    /// explicit peers are as they were.
    pub fn subscribe(&mut self, gossipsub: &mut Gossipsub, name: &str) -> (id: Result<
        String,
        SubscriptionFailure,
    >)
        ensures
            id matches Ok(hash) && hash@ == topic_id(name@),
            final(self)@ == old(self)@.insert(topic_id(name@), name@),
            subscriptions(*final(gossipsub)) == subscriptions(*old(gossipsub)).insert(
                topic_id(name@),
            ),
            explicit_peers(*final(gossipsub)) == explicit_peers(*old(gossipsub)),
    {
        let answer = gossipsub_subscribe(gossipsub, name);
        self.subscribed(name, answer)
    }
}

/// The registry after subscribing to each of `names` in turn, every subscription accepted.
pub open spec fn after_subscriptions(registry: Map<Seq<char>, Seq<char>>, names: Seq<Seq<char>>) -> Map<
    Seq<char>,
    Seq<char>,
>
    decreases names.len(),
{
    if names.len() == 0 {
        registry
    } else {
        after_subscriptions(registry, names.drop_last()).insert(topic_id(names.last()), names.last())
    }
}

/// After subscriptions to distinct names, the identifier of each of them resolves to
/// that name.
pub proof fn lemma_resolve_after_subscriptions(
    registry: Map<Seq<char>, Seq<char>>,
    names: Seq<Seq<char>>,
    i: int,
)
    requires
        names.no_duplicates(),
        0 <= i < names.len(),
    ensures
        after_subscriptions(registry, names).contains_key(topic_id(names[i])),
        after_subscriptions(registry, names)[topic_id(names[i])] == names[i],
    decreases names.len(),
{
    if i < names.len() - 1 {
        let earlier = names.drop_last();
        lemma_resolve_after_subscriptions(registry, earlier, i);
    }
}

/// Subscribing to a topic and resolving the identifier returned gives the topic's name.
pub proof fn lemma_subscribe_resolve(registry: Map<Seq<char>, Seq<char>>, name: Seq<char>)
    ensures
        registry.insert(topic_id(name), name).contains_key(topic_id(name)),
        registry.insert(topic_id(name), name)[topic_id(name)] == name,
{
}

/// Subscribing twice to a topic leaves the registry as subscribing once does.
pub proof fn lemma_subscribe_idempotent(registry: Map<Seq<char>, Seq<char>>, name: Seq<char>)
    ensures
        registry.insert(topic_id(name), name).insert(topic_id(name), name) == registry.insert(
            topic_id(name),
            name,
        ),
{
}

} // verus!
