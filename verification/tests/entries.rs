use openmicc::signup_list::SignupList;
use openmicc::signup_list_entry::{EntryAndReceipt, SignupId, SignupListEntry, SignupListEntryText};
use openmicc::signup_receipt::SignupReceipt;

#[test]
fn signup_id_parse() {
    assert_eq!(SignupId::parse("42").map(|i| i.value()), Ok(42));
    assert_eq!(SignupId::parse("+7").map(|i| i.value()), Ok(7));
    assert_eq!(SignupId::parse("007").map(|i| i.value()), Ok(7));
    assert!(SignupId::parse("").is_err());
    assert!(SignupId::parse("+").is_err());
    assert!(SignupId::parse("-1").is_err());
    assert!(SignupId::parse(" 1").is_err());
    assert!(SignupId::parse("1a").is_err());
    assert!(SignupId::parse("99999999999999999999999999").is_err());
    let id: SignupId = "13".parse().unwrap();
    assert_eq!(id.value(), 13);
}

#[test]
fn signup_id_from_value() {
    assert_eq!(SignupId::from(5usize).value(), 5);
    assert_eq!(SignupId::new(9), SignupId::from(9usize));
}

#[test]
fn entry_text() {
    let t = SignupListEntryText::from("Alice".to_string());
    assert_eq!(t.as_str(), "Alice");
    assert_eq!(t.to_string(), "Alice");
    let u: SignupListEntryText = "Bob".parse().unwrap();
    assert_eq!(u.as_str(), "Bob");
    assert_eq!(SignupListEntryText::from_text("Carol").as_str(), "Carol");
}

#[test]
fn id_and_receipt_of_entry() {
    let receipt = SignupReceipt([1, 2, 3, 4]);
    let entry = SignupListEntry { id: SignupId::new(3), text: SignupListEntryText::from_text("Dan") };
    let er = EntryAndReceipt { entry, receipt };
    let ir = er.id_and_receipt();
    assert_eq!(ir.id, SignupId::new(3));
    assert!(ir.receipt == receipt);
}

#[test]
fn signup_list_keeps_order() {
    let e = |n: usize, s: &str| SignupListEntry { id: SignupId::new(n), text: SignupListEntryText::from_text(s) };
    let list = SignupList::from(vec![e(1, "a"), e(2, "b")]);
    let ids: Vec<usize> = list.entries().iter().map(|x| x.id.value()).collect();
    assert_eq!(ids, vec![1, 2]);
    let texts: Vec<String> = SignupList::from_entries(vec![e(5, "z")]).into_entries().iter().map(|x| x.text.to_string()).collect();
    assert_eq!(texts, vec!["z".to_string()]);
}
