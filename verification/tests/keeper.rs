use openmicc::constants::SIGNUP_TOPIC;
use openmicc::redis_subscriber::RedisSubscriber;
use openmicc::signup_list::ListKeeper;
use openmicc::signup_list_entry::{SignupId, SignupListEntry, SignupListEntryText};
use openmicc::stage::{Stage, StageError};
use openmicc::subscribers::SubscriberSet;
use openmicc::user_session::SignupListMessage;

fn entry(n: usize, s: &str) -> SignupListEntry {
    SignupListEntry { id: SignupId::new(n), text: SignupListEntryText::from_text(s) }
}

#[test]
fn subscriber_set_basics() {
    let mut set: SubscriberSet<&str> = SubscriberSet::new();
    assert!(set.subscribe(1, "a"));
    assert!(!set.subscribe(1, "b"));
    assert_eq!(set.get(1), Some(&"a"));
    assert!(set.subscribe(2, "c"));
    assert_eq!(set.len(), 2);
    let mut keys = set.keys();
    keys.sort();
    assert_eq!(keys, vec![1, 2]);
    assert!(set.unsubscribe(1));
    assert!(!set.unsubscribe(1));
    assert!(!set.contains(1));
    assert_eq!(set.keys(), vec![2]);
}

#[test]
fn keeper_counts_and_dispatches() {
    let mut keeper: ListKeeper<&str> = ListKeeper::new();
    assert!(keeper.subscribe(10, "u10"));
    assert!(keeper.subscribe(11, "u11"));
    let d = keeper.on_update(SIGNUP_TOPIC, entry(1, "Ann")).expect("sign-up topic is dispatched");
    let mut r = d.recipients.clone();
    r.sort();
    assert_eq!(r, vec![10, 11]);
    match d.message {
        SignupListMessage::Add { new, counter } => {
            assert_eq!(new.id.value(), 1);
            assert_eq!(counter.value(), 1);
        }
        _ => panic!("wrong message"),
    }
    assert!(keeper.on_update("other_topic", entry(2, "Ben")).is_none());
    assert_eq!(keeper.counter().value(), 1);
    let d2 = keeper.on_update("new_signups", entry(3, "Cat")).unwrap();
    match d2.message {
        SignupListMessage::Add { counter, .. } => assert_eq!(counter.value(), 2),
        _ => panic!("wrong message"),
    }
    assert!(keeper.unsubscribe(10));
    assert!(!keeper.unsubscribe(10));
    assert_eq!(keeper.subscriber(11), Some(&"u11"));
    assert!(keeper.subscriber(10).is_none());
    let d3 = keeper.on_update(SIGNUP_TOPIC, entry(4, "Dee")).unwrap();
    assert_eq!(d3.recipients, vec![11]);
}

#[test]
fn keeper_attaches_id_and_receipt() {
    let er = ListKeeper::<()>::attach_id_and_receipt_to_list_entry(SignupId::new(8), SignupListEntryText::from_text("Eve"));
    assert_eq!(er.entry.id.value(), 8);
    assert_eq!(er.entry.text.as_str(), "Eve");
    let ir = er.id_and_receipt();
    assert!(ir.receipt == er.receipt);
}

#[test]
fn subscribe_then_unsubscribe_restores() {
    let mut keeper: ListKeeper<u8> = ListKeeper::new();
    keeper.subscribe(1, 1);
    let before = keeper.on_update("x", entry(0, "")).is_none();
    assert!(before);
    assert!(keeper.subscribe(2, 2));
    assert!(keeper.unsubscribe(2));
    let d = keeper.on_update(SIGNUP_TOPIC, entry(1, "f")).unwrap();
    assert_eq!(d.recipients, vec![1]);
}

#[test]
fn redis_subscriber_fan_out() {
    let mut sub: RedisSubscriber<&str> = RedisSubscriber::new("new_signups");
    assert_eq!(sub.topic(), "new_signups");
    sub.register(3, "three");
    sub.register(3, "again");
    sub.register(4, "four");
    assert_eq!(sub.address(3), Some(&"three"));
    let mut b = sub.broadcast();
    b.sort();
    assert_eq!(b, vec![3, 4]);
    assert!(sub.unregister(4));
    assert!(!sub.unregister(4));
    assert_eq!(sub.broadcast(), vec![3]);
}

#[test]
fn stage_producer_and_consumers() {
    let mut stage: Stage<&str, &str> = Stage::new();
    assert_eq!(stage.current_producer(), Err(StageError::NoCurrentProducer));
    assert_eq!(stage.save_producer("p1"), None);
    assert_eq!(stage.current_producer(), Ok(&"p1"));
    assert_eq!(stage.save_producer("p2"), Some("p1"));
    assert_eq!(stage.current_producer(), Ok(&"p2"));
    assert_eq!(stage.save_consumer(5, "c5"), None);
    assert_eq!(stage.save_consumer(6, "c6"), None);
    assert_eq!(stage.consumer(5), Some(&"c5"));
    assert_eq!(stage.num_consumers(), 2);
    assert_eq!(stage.save_consumer(5, "c5b"), Some("c5"));
    assert_eq!(stage.num_consumers(), 2);
}

#[test]
fn keeper_ignores_other_topics_without_counting() {
    let mut keeper: ListKeeper<&str> = ListKeeper::new();
    keeper.subscribe(1, "u1");
    assert!(keeper.on_update("signup_removals", entry(1, "x")).is_none());
    assert_eq!(keeper.counter().value(), 0);
    let d = keeper.on_update(SIGNUP_TOPIC, entry(2, "y")).unwrap();
    match d.message {
        SignupListMessage::Add { counter, .. } => assert_eq!(counter.value(), 1),
        _ => panic!("wrong message"),
    }
}
