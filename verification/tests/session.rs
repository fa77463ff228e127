use openmicc::greeter::{OnboardingChecklist, OnboardingTask};
use openmicc::signup_list::SignupList;
use openmicc::signup_list_entry::{IdAndReceipt, SignupId, SignupListEntry, SignupListEntryText};
use openmicc::signup_receipt::SignupReceipt;
use openmicc::user_session::{
    react_to_frame, ClientMessage, ListRequest, PerformParams, ServerMessage, SessionError,
    SessionRequest, SignupListCounter, SignupListMessage, UserSession, WelcomeMessage, WsFrame,
    WsReaction,
};

fn welcome(book: &'static str) -> WelcomeMessage<&'static str> {
    WelcomeMessage { addrs: book, checklist: OnboardingChecklist::new() }
}

fn kinds(reqs: &[ListRequest]) -> Vec<&'static str> {
    reqs.iter()
        .map(|r| match r {
            ListRequest::Subscribe => "subscribe",
            ListRequest::Unsubscribe => "unsubscribe",
            ListRequest::GetList => "get_list",
            ListRequest::SignMeUp(_) => "sign_me_up",
            ListRequest::TakeMeOff(_) => "take_me_off",
        })
        .collect()
}

#[test]
fn checklist_is_subscribe() {
    assert_eq!(OnboardingChecklist::new().into_tasks(), vec![OnboardingTask::SubscribeToSignupList]);
}

#[test]
fn counter_increments() {
    let mut c = SignupListCounter::default();
    assert_eq!(c.value(), 0);
    let after = c.incr();
    assert_eq!(after.value(), 1);
    assert_eq!(c.value(), 1);
    c.incr();
    assert_eq!(SignupListCounter::new().value(), 0);
    assert_eq!(c.value(), 2);
}

#[test]
fn session_requests_wait_for_welcome() {
    let s: UserSession<u8, &str> = UserSession::new(7);
    assert_eq!(*s.greeter_addr(), 7);
    assert!(!s.is_onboarded());
    assert!(s.address_book().is_none());
    assert!(matches!(s.handle_client_message::<()>(ClientMessage::GetList), Err(SessionError::NoAddressBook)));
    assert!(matches!(s.get_signup_list(), Err(SessionError::NoAddressBook)));
    assert!(matches!(s.unsubscribe_from_signup_list(), Err(SessionError::NoAddressBook)));
}

#[test]
fn session_welcome_once() {
    let mut s: UserSession<u8, &str> = UserSession::new(1);
    let first = s.welcome(welcome("book-a")).unwrap();
    assert_eq!(kinds(&first), vec!["subscribe", "get_list"]);
    assert!(s.is_onboarded());
    assert_eq!(s.address_book(), Some(&"book-a"));
    assert!(matches!(s.welcome(welcome("book-b")), Err(SessionError::AlreadyOnboarded)));
    assert_eq!(s.address_book(), Some(&"book-a"));
}

#[test]
fn session_forwards_client_messages() {
    let mut s: UserSession<u8, &str> = UserSession::new(1);
    s.welcome(welcome("book")).unwrap();
    match s.handle_client_message::<u32>(ClientMessage::SignMeUp(SignupListEntryText::from_text("Gus"))) {
        Ok(SessionRequest::SignupList(ListRequest::SignMeUp(t))) => assert_eq!(t.as_str(), "Gus"),
        _ => panic!("sign-up not forwarded"),
    }
    let ir = IdAndReceipt { id: SignupId::new(4), receipt: SignupReceipt([9, 9, 9, 9]) };
    match s.handle_client_message::<u32>(ClientMessage::TakeMeOff(ir)) {
        Ok(SessionRequest::SignupList(ListRequest::TakeMeOff(x))) => assert_eq!(x.id.value(), 4),
        _ => panic!("cancel not forwarded"),
    }
    let params = PerformParams { signup_receipt: SignupReceipt([1, 1, 1, 1]), rtp_parameters: 77u32 };
    match s.handle_client_message(ClientMessage::ImReady(params)) {
        Ok(SessionRequest::Perform { rtp_parameters }) => assert_eq!(rtp_parameters, 77),
        _ => panic!("perform not forwarded"),
    }
    assert!(matches!(s.handle_client_message::<u32>(ClientMessage::GetList), Ok(SessionRequest::SignupList(ListRequest::GetList))));
    assert!(matches!(s.unsubscribe_from_signup_list(), Ok(ListRequest::Unsubscribe)));
    assert!(matches!(s.get_signup_list(), Ok(ListRequest::GetList)));
}

#[test]
fn list_messages_become_server_messages() {
    let mut c = SignupListCounter::new();
    let counter = c.incr();
    let entry = SignupListEntry { id: SignupId::new(2), text: SignupListEntryText::from_text("Hal") };
    match (SignupListMessage::Add { new: entry, counter }).into_server_message::<()>() {
        ServerMessage::NewSignup { entry, counter } => {
            assert_eq!(entry.id.value(), 2);
            assert_eq!(counter.value(), 1);
        }
        _ => panic!("wrong message"),
    }
    match (SignupListMessage::Del { id: SignupId::new(3), counter }).into_server_message::<()>() {
        ServerMessage::ListRemoval { id, counter } => {
            assert_eq!(id.value(), 3);
            assert_eq!(counter.value(), 1);
        }
        _ => panic!("wrong message"),
    }
    match (SignupListMessage::All { list: SignupList::from_entries(vec![]) }).into_server_message::<()>() {
        ServerMessage::WholeSignupList(list) => assert!(list.entries().is_empty()),
        _ => panic!("wrong message"),
    }
}

#[test]
fn websocket_frames() {
    assert_eq!(react_to_frame(WsFrame::Ping), WsReaction::Pong);
    assert_eq!(react_to_frame(WsFrame::Pong), WsReaction::Ignore);
    assert_eq!(react_to_frame(WsFrame::Text), WsReaction::HandleText);
    assert_eq!(react_to_frame(WsFrame::Binary), WsReaction::ReportBinary);
    assert_eq!(react_to_frame(WsFrame::Close), WsReaction::CloseAndStop);
    assert_eq!(react_to_frame(WsFrame::Continuation), WsReaction::Stop);
    assert_eq!(react_to_frame(WsFrame::Nop), WsReaction::Stop);
    assert_eq!(react_to_frame(WsFrame::ProtocolError), WsReaction::Stop);
}

#[test]
fn signup_success_message() {
    let ir = IdAndReceipt { id: SignupId::new(12), receipt: SignupReceipt([4, 3, 2, 1]) };
    match ServerMessage::<()>::signup_success(ir) {
        ServerMessage::SignupSuccess { id, receipt } => {
            assert_eq!(id.value(), 12);
            assert_eq!(receipt.to_string(), "04030201");
        }
        _ => panic!("wrong message"),
    }
}
