//! A set of subscribers, each known by a key and reached through an
//! address: who receives the updates of a list or of a pub/sub topic.

use std::collections::HashMap;

use vstd::prelude::*;
use vstd::std_specs::iter::IteratorSpec;

verus! {

broadcast use vstd::std_specs::hash::group_hash_axioms;

/// Subscribers by key. A key occurs at most once.
pub struct SubscriberSet<A> {
    addrs: HashMap<u64, A>,
}

impl<A> View for SubscriberSet<A> {
    type V = Map<u64, A>;

    closed spec fn view(&self) -> Map<u64, A> {
        self.addrs@
    }
}

impl<A> SubscriberSet<A> {
    /// A set with no subscriber.
    pub fn new() -> (res: Self)
        ensures
            res@ == Map::<u64, A>::empty(),
    {
        SubscriberSet { addrs: HashMap::new() }
    }

    /// Whether `key` is subscribed.
    pub fn contains(&self, key: u64) -> (res: bool)
        ensures
            res == self@.contains_key(key),
    {
        self.addrs.contains_key(&key)
    }

    /// Number of subscribers.
    pub fn len(&self) -> (res: usize)
        ensures
            res == self@.len(),
    {
        self.addrs.len()
    }

    /// The address of subscriber `key`, if subscribed.
    pub fn get(&self, key: u64) -> (res: Option<&A>)
        ensures
            res matches Some(a) ==> self@.contains_key(key) && *a == self@[key],
            res is None ==> !self@.contains_key(key),
    {
        self.addrs.get(&key)
    }

    /// Adds a subscriber. Returns whether it is new; a key that is already
    /// subscribed keeps its first address.
    pub fn subscribe(&mut self, key: u64, addr: A) -> (is_new: bool)
        ensures
            is_new == !old(self)@.contains_key(key),
            is_new ==> final(self)@ == old(self)@.insert(key, addr),
            !is_new ==> final(self)@ == old(self)@,
    {
        if self.addrs.contains_key(&key) {
            false
        } else {
            self.addrs.insert(key, addr);
            true
        }
    }

    /// Removes a subscriber. Returns whether it was subscribed.
    pub fn unsubscribe(&mut self, key: u64) -> (was_present: bool)
        ensures
            was_present == old(self)@.contains_key(key),
            final(self)@ == old(self)@.remove(key),
    {
        match self.addrs.remove(&key) {
            Some(_) => true,
            None => false,
        }
    }

    /// The keys of all subscribers, each once, in no particular order.
    pub fn keys(&self) -> (res: Vec<u64>)
        ensures
            res@.to_set() == self@.dom(),
            res@.no_duplicates(),
    {
        let ghost all = vstd::std_specs::hash::spec_keys_iter(&self.addrs).remaining().unref();
        let mut out: Vec<u64> = Vec::new();
        for k in it: self.addrs.keys()
            invariant
                it.seq().unref() == all,
                out@.len() == it.index(),
                forall|i: int| 0 <= i < it.index() ==> out@[i] == all[i],
        {
            out.push(*k);
        }
        assert(out@ =~= all);
        out
    }
}

/// Law: subscribing a key that was not subscribed and then unsubscribing it
/// leaves the subscribers as they were.
pub proof fn lemma_subscribe_then_unsubscribe<A>(m: Map<u64, A>, key: u64, addr: A)
    requires
        !m.contains_key(key),
    ensures
        m.insert(key, addr).remove(key) == m,
{
    assert(m.insert(key, addr).remove(key) =~= m);
}

/// Law: unsubscribing a key that is not subscribed changes nothing.
pub proof fn lemma_unsubscribe_absent<A>(m: Map<u64, A>, key: u64)
    requires
        !m.contains_key(key),
    ensures
        m.remove(key) == m,
{
    assert(m.remove(key) =~= m);
}

/// Law: subscribing twice under one key is the same as subscribing once;
/// the first address stays.
pub proof fn lemma_subscribe_twice<A>(m: Map<u64, A>, key: u64, first: A, second: A)
    requires
        !m.contains_key(key),
    ensures
        m.insert(key, first).contains_key(key),
        m.insert(key, first)[key] == first,
{
}

} // verus!
