//! The sign-up list: its snapshots, and the keeper that hands out entries,
//! keeps the subscribers and counts the updates it passes on.

use vstd::prelude::*;

use crate::constants::{lemma_signup_topic, signup_topic, SIGNUP_TOPIC};
use crate::signup_list_entry::{EntryAndReceipt, SignupId, SignupListEntry, SignupListEntryText};
use crate::signup_receipt::SignupReceipt;
use crate::subscribers::SubscriberSet;
use crate::text::str_eq;
use crate::user_session::{SignupListCounter, SignupListMessage};

verus! {

/// A snapshot of the whole sign-up list, in sign-up order.
#[derive(Clone)]
pub struct SignupList(Vec<SignupListEntry>);

impl View for SignupList {
    type V = Seq<SignupListEntry>;

    closed spec fn view(&self) -> Seq<SignupListEntry> {
        self.0@
    }
}

impl SignupList {
    /// A snapshot made of these entries, in this order.
    pub fn from_entries(entries: Vec<SignupListEntry>) -> (res: Self)
        ensures
            res@ == entries@,
    {
        SignupList(entries)
    }

    /// The entries, in order.
    pub fn entries(&self) -> (res: &Vec<SignupListEntry>)
        ensures
            res@ == self@,
    {
        &self.0
    }

    /// The entries, in order, by value.
    pub fn into_entries(self) -> (res: Vec<SignupListEntry>)
        ensures
            res@ == self@,
    {
        self.0
    }
}

impl From<Vec<SignupListEntry>> for SignupList {
    fn from(entries: Vec<SignupListEntry>) -> (res: Self)
        ensures
            res@ == entries@,
    {
        SignupList(entries)
    }
}

impl vstd::std_specs::convert::FromSpecImpl<Vec<SignupListEntry>> for SignupList {
    open spec fn obeys_from_spec() -> bool {
        true
    }

    closed spec fn from_spec(entries: Vec<SignupListEntry>) -> SignupList {
        SignupList(entries)
    }
}

/// An update to pass on: the message and the keys of the subscribers to
/// send it to.
pub struct Dispatch {
    pub message: SignupListMessage,
    pub recipients: Vec<u64>,
}

/// The state of a list keeper as the contracts see it: the subscribers and
/// the update counter.
pub struct ListKeeperModel<A> {
    pub users: Map<u64, A>,
    pub counter: usize,
}

/// Keeps the subscribers of the sign-up list (addresses of type `A`) and
/// counts the list updates it passes on.
pub struct ListKeeper<A> {
    users: SubscriberSet<A>,
    update_counter: SignupListCounter,
}

impl<A> View for ListKeeper<A> {
    type V = ListKeeperModel<A>;

    closed spec fn view(&self) -> ListKeeperModel<A> {
        ListKeeperModel { users: self.users@, counter: self.update_counter@ }
    }
}

impl<A> ListKeeper<A> {
    /// A keeper with no subscriber and the counter at zero.
    pub fn new() -> (res: Self)
        ensures
            res@.users == Map::<u64, A>::empty(),
            res@.counter == 0,
    {
        ListKeeper { users: SubscriberSet::new(), update_counter: SignupListCounter::new() }
    }

    /// Subscribes a user to list updates. Returns whether the user is new; a
    /// user that is already subscribed stays as it was.
    pub fn subscribe(&mut self, key: u64, addr: A) -> (is_new: bool)
        ensures
            is_new == !old(self)@.users.contains_key(key),
            is_new ==> final(self)@.users == old(self)@.users.insert(key, addr),
            !is_new ==> final(self)@.users == old(self)@.users,
            final(self)@.counter == old(self)@.counter,
    {
        self.users.subscribe(key, addr)
    }

    /// Unsubscribes a user. Returns whether the user was subscribed.
    pub fn unsubscribe(&mut self, key: u64) -> (was_present: bool)
        ensures
            was_present == old(self)@.users.contains_key(key),
            final(self)@.users == old(self)@.users.remove(key),
            final(self)@.counter == old(self)@.counter,
    {
        self.users.unsubscribe(key)
    }

    /// The address of a subscribed user.
    pub fn subscriber(&self, key: u64) -> (res: Option<&A>)
        ensures
            res matches Some(a) ==> self@.users.contains_key(key) && *a == self@.users[key],
            res is None ==> !self@.users.contains_key(key),
    {
        self.users.get(key)
    }

    /// The update counter.
    pub fn counter(&self) -> (res: SignupListCounter)
        ensures
            res@ == self@.counter,
    {
        self.update_counter
    }

    /// Handles an update published on `topic` carrying `entry`: an update on
    /// the sign-up topic is counted and passed on, with the new count, to
    /// every subscriber; an update on any other topic is ignored and not
    /// counted, so the counts that clients receive stay consecutive.
    pub fn on_update(&mut self, topic: &str, entry: SignupListEntry) -> (res: Option<Dispatch>)
        requires
            topic@ == signup_topic() ==> old(self)@.counter < usize::MAX,
        ensures
            final(self)@.users == old(self)@.users,
            res is Some <==> topic@ == signup_topic(),
            res is Some ==> final(self)@.counter == old(self)@.counter + 1,
            res is None ==> final(self)@.counter == old(self)@.counter,
            res matches Some(d) ==> {
                &&& d.message matches SignupListMessage::Add { new, counter }
                &&& new == entry
                &&& counter@ == final(self)@.counter
                &&& d.recipients@.to_set() == old(self)@.users.dom()
                &&& d.recipients@.no_duplicates()
            },
    {
        proof {
            lemma_signup_topic();
        }
        if str_eq(topic, SIGNUP_TOPIC) {
            let counter = self.update_counter.incr();
            let recipients = self.users.keys();
            Some(Dispatch { message: SignupListMessage::Add { new: entry, counter }, recipients })
        } else {
            None
        }
    }

    /// A new entry with the given id and text, and a fresh receipt for it.
    pub fn attach_id_and_receipt_to_list_entry(id: SignupId, text: SignupListEntryText) -> (res:
        EntryAndReceipt)
        ensures
            res.entry.id == id,
            res.entry.text == text,
    {
        let entry = SignupListEntry { id, text };
        let receipt = SignupReceipt::gen();
        EntryAndReceipt { entry, receipt }
    }
}

} // verus!
