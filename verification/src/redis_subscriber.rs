//! Fan-out of one pub/sub topic: the messages that arrive on it and the
//! subscribers they are forwarded to.

use vstd::prelude::*;
use vstd::string::StringExecFns;

use crate::subscribers::SubscriberSet;

verus! {

/// A message that arrived on a pub/sub topic.
#[derive(Clone, Debug)]
pub enum RedisMessage {
    Update { topic: String, content: String },
}

/// The subscriber of a topic as the contracts see it.
pub struct RedisSubscriberModel<A> {
    pub topic: Seq<char>,
    pub addrs: Map<u64, A>,
}

/// Forwards the messages of one topic to the registered addresses (of type
/// `A`), each known by a key.
pub struct RedisSubscriber<A> {
    topic: String,
    addrs: SubscriberSet<A>,
}

impl<A> View for RedisSubscriber<A> {
    type V = RedisSubscriberModel<A>;

    closed spec fn view(&self) -> RedisSubscriberModel<A> {
        RedisSubscriberModel { topic: self.topic@, addrs: self.addrs@ }
    }
}

impl<A> RedisSubscriber<A> {
    /// A subscriber of `topic` with no registered address.
    pub fn new(topic: &str) -> (res: Self)
        ensures
            res@.topic == topic@,
            res@.addrs == Map::<u64, A>::empty(),
    {
        RedisSubscriber { topic: String::from_str(topic), addrs: SubscriberSet::new() }
    }

    /// The topic.
    pub fn topic(&self) -> (res: &str)
        ensures
            res@ == self@.topic,
    {
        self.topic.as_str()
    }

    /// Registers an address to forward messages to; an address already
    /// registered under the key stays.
    pub fn register(&mut self, key: u64, addr: A)
        ensures
            final(self)@.topic == old(self)@.topic,
            old(self)@.addrs.contains_key(key) ==> final(self)@.addrs == old(self)@.addrs,
            !old(self)@.addrs.contains_key(key) ==> final(self)@.addrs == old(self)@.addrs.insert(
                key,
                addr,
            ),
    {
        self.addrs.subscribe(key, addr);
    }

    /// Unregisters an address. Returns whether it was registered.
    pub fn unregister(&mut self, key: u64) -> (was_present: bool)
        ensures
            final(self)@.topic == old(self)@.topic,
            was_present == old(self)@.addrs.contains_key(key),
            final(self)@.addrs == old(self)@.addrs.remove(key),
    {
        self.addrs.unsubscribe(key)
    }

    /// The address registered under `key`.
    pub fn address(&self, key: u64) -> (res: Option<&A>)
        ensures
            res matches Some(a) ==> self@.addrs.contains_key(key) && *a == self@.addrs[key],
            res is None ==> !self@.addrs.contains_key(key),
    {
        self.addrs.get(key)
    }

    /// The keys to forward a message to: every registered key, once each.
    pub fn broadcast(&self) -> (res: Vec<u64>)
        ensures
            res@.to_set() == self@.addrs.dom(),
            res@.no_duplicates(),
    {
        self.addrs.keys()
    }
}

} // verus!
