//! One user's connection: the update counter of the sign-up list, the
//! messages exchanged with the client, and the session state machine that
//! decides what each message or event leads to.

use vstd::prelude::*;

use crate::greeter::{standard_checklist, OnboardingChecklist, OnboardingTask};
use crate::signup_list::SignupList;
use crate::signup_list_entry::{IdAndReceipt, SignupId, SignupListEntry, SignupListEntryText};
use crate::signup_receipt::SignupReceipt;

verus! {

/// Counts the updates of the sign-up list, so that clients can tell
/// whether they have missed one.
#[derive(Clone, Copy, Debug)]
pub struct SignupListCounter(usize);

impl View for SignupListCounter {
    type V = usize;

    closed spec fn view(&self) -> usize {
        self.0
    }
}

impl SignupListCounter {
    /// A counter at zero.
    pub fn new() -> (res: Self)
        ensures
            res@ == 0,
    {
        SignupListCounter(0)
    }

    /// The counter's value.
    pub fn value(&self) -> (res: usize)
        ensures
            res == self@,
    {
        self.0
    }

    /// Increments the counter and returns the updated value.
    pub fn incr(&mut self) -> (res: Self)
        requires
            old(self)@ < usize::MAX,
        ensures
            final(self)@ == old(self)@ + 1,
            res@ == final(self)@,
    {
        self.0 = self.0 + 1;
        *self
    }
}

impl From<usize> for SignupListCounter {
    fn from(value: usize) -> (res: Self)
        ensures
            res@ == value,
    {
        SignupListCounter(value)
    }
}

impl vstd::std_specs::convert::FromSpecImpl<usize> for SignupListCounter {
    open spec fn obeys_from_spec() -> bool {
        true
    }

    closed spec fn from_spec(value: usize) -> SignupListCounter {
        SignupListCounter(value)
    }
}

impl Default for SignupListCounter {
    fn default() -> (res: Self)
        ensures
            res@ == 0,
    {
        SignupListCounter(0)
    }
}

/// What a user sends when ready to perform: their receipt and the media
/// parameters of their stream (of the media layer's type `R`).
pub struct PerformParams<R> {
    pub signup_receipt: SignupReceipt,
    pub rtp_parameters: R,
}

/// Sent from client to server.
pub enum ClientMessage<R> {
    /// Get the whole current sign-up list.
    GetList,
    /// Sign me up.
    SignMeUp(SignupListEntryText),
    /// Take me off the list.
    TakeMeOff(IdAndReceipt),
    /// I'm ready to perform.
    ImReady(PerformParams<R>),
}

/// Sent from server to client; `T` is the media layer's transport options.
pub enum ServerMessage<T> {
    /// A notification of a new sign-up.
    NewSignup {
        /// The new list entry.
        entry: SignupListEntry,
        /// Count of list updates.
        counter: SignupListCounter,
    },
    /// An entry has been deleted from the sign-up list.
    ListRemoval {
        /// The id of the removed entry.
        id: SignupId,
        /// Count of list updates.
        counter: SignupListCounter,
    },
    /// A snapshot of the whole current sign-up list.
    WholeSignupList(SignupList),
    /// The user has successfully signed up and obtained a receipt.
    SignupSuccess { id: SignupId, receipt: SignupReceipt },
    /// The user can now start watching.
    StartWatching { consumer_transport_options: T },
    /// The user can now start performing.
    StartPerforming { producer_transport_options: T },
}

/// A message from the sign-up list to a user session.
#[derive(Clone)]
pub enum SignupListMessage {
    /// The whole list.
    All { list: SignupList },
    /// A new entry.
    Add { new: SignupListEntry, counter: SignupListCounter },
    /// A removed entry.
    Del { id: SignupId, counter: SignupListCounter },
}

/// The client message that forwards a sign-up list message.
pub open spec fn server_message_of<T>(msg: SignupListMessage) -> ServerMessage<T> {
    match msg {
        SignupListMessage::All { list } => ServerMessage::WholeSignupList(list),
        SignupListMessage::Add { new, counter } => ServerMessage::NewSignup { entry: new, counter },
        SignupListMessage::Del { id, counter } => ServerMessage::ListRemoval { id, counter },
    }
}

impl SignupListMessage {
    /// The message forwarded to the client for this sign-up list message.
    pub fn into_server_message<T>(self) -> (res: ServerMessage<T>)
        ensures
            res == server_message_of::<T>(self),
            self matches SignupListMessage::All { list } ==> (res matches ServerMessage::WholeSignupList(
                l,
            ) && l@ == list@),
            self matches SignupListMessage::Add { new, counter } ==> (
            res matches ServerMessage::NewSignup { entry, counter: c } && entry == new && c@
                == counter@),
            self matches SignupListMessage::Del { id, counter } ==> (
            res matches ServerMessage::ListRemoval { id: i, counter: c } && i == id && c@
                == counter@),
    {
        match self {
            SignupListMessage::All { list } => ServerMessage::WholeSignupList(list),
            SignupListMessage::Add { new, counter } => ServerMessage::NewSignup { entry: new, counter },
            SignupListMessage::Del { id, counter } => ServerMessage::ListRemoval { id, counter },
        }
    }
}

impl<T> ServerMessage<T> {
    /// The message telling the client that its sign-up succeeded, with the
    /// id and receipt that the sign-up list handed back.
    pub fn signup_success(id_and_receipt: IdAndReceipt) -> (res: Self)
        ensures
            res == (ServerMessage::<T>::SignupSuccess {
                id: id_and_receipt.id,
                receipt: id_and_receipt.receipt,
            }),
    {
        ServerMessage::SignupSuccess { id: id_and_receipt.id, receipt: id_and_receipt.receipt }
    }
}

/// Sent from the greeter to a new session: the addresses it needs (of type
/// `B`) and the onboarding checklist.
pub struct WelcomeMessage<B> {
    pub addrs: B,
    pub checklist: OnboardingChecklist,
}

/// A request from a session to the sign-up list.
pub enum ListRequest {
    /// Send me list updates.
    Subscribe,
    /// Stop sending me list updates.
    Unsubscribe,
    /// Send me the whole list.
    GetList,
    /// Put this text on the list.
    SignMeUp(SignupListEntryText),
    /// Take this entry off the list.
    TakeMeOff(IdAndReceipt),
}

/// A request from a session, to the sign-up list or to the stage.
pub enum SessionRequest<R> {
    /// To the sign-up list.
    SignupList(ListRequest),
    /// To the stage: perform with these media parameters.
    Perform { rtp_parameters: R },
}

/// Why a session could not act.
#[derive(Clone, Copy, Debug, PartialEq, Eq, Structural)]
pub enum SessionError {
    /// The session has not been welcomed, so it knows no address.
    NoAddressBook,
    /// The session has already been onboarded.
    AlreadyOnboarded,
}

/// The state of a session as the contracts see it.
pub struct SessionModel<B> {
    pub onboarded: bool,
    pub addrs: Option<B>,
}

/// What holds of every session: an onboarded session knows its addresses.
pub open spec fn session_invariant<B>(s: SessionModel<B>) -> bool {
    s.onboarded ==> s.addrs is Some
}

/// The state of a session that has just connected.
pub open spec fn fresh_session<B>() -> SessionModel<B> {
    SessionModel { onboarded: false, addrs: None }
}

/// The request that carries out an onboarding task.
pub open spec fn task_request(task: OnboardingTask) -> ListRequest {
    match task {
        OnboardingTask::SubscribeToSignupList => ListRequest::Subscribe,
    }
}

/// The requests that carry out some onboarding tasks, in order.
pub open spec fn task_requests(tasks: Seq<OnboardingTask>) -> Seq<ListRequest> {
    tasks.map_values(|t: OnboardingTask| task_request(t))
}

/// Onboarding: refused if already done; otherwise the session is onboarded
/// and each task yields its request, where the session knows the addresses
/// (a task that cannot be done is skipped).
pub open spec fn onboard_model<B>(s: SessionModel<B>) -> SessionModel<B> {
    if s.onboarded {
        s
    } else {
        SessionModel { onboarded: true, addrs: s.addrs }
    }
}

/// The outcome of onboarding with some tasks.
pub open spec fn onboard_outcome<B>(s: SessionModel<B>, tasks: Seq<OnboardingTask>) -> Result<
    Seq<ListRequest>,
    SessionError,
> {
    if s.onboarded {
        Err(SessionError::AlreadyOnboarded)
    } else if s.addrs is Some {
        Ok(task_requests(tasks))
    } else {
        Ok(Seq::empty())
    }
}

/// A welcome: ignored once the session is onboarded; otherwise the session
/// keeps the addresses and is onboarded.
pub open spec fn welcome_model<B>(s: SessionModel<B>, addrs: B) -> SessionModel<B> {
    if s.onboarded {
        s
    } else {
        SessionModel { onboarded: true, addrs: Some(addrs) }
    }
}

/// What a welcome leads to: refused once onboarded; otherwise the requests
/// of the onboarding tasks, then a request for the whole list.
pub open spec fn welcome_outcome<B>(s: SessionModel<B>, tasks: Seq<OnboardingTask>) -> Result<
    Seq<ListRequest>,
    SessionError,
> {
    if s.onboarded {
        Err(SessionError::AlreadyOnboarded)
    } else {
        Ok(task_requests(tasks).push(ListRequest::GetList))
    }
}

/// The request that a client message asks for.
pub open spec fn request_for<R>(msg: ClientMessage<R>) -> SessionRequest<R> {
    match msg {
        ClientMessage::GetList => SessionRequest::SignupList(ListRequest::GetList),
        ClientMessage::SignMeUp(text) => SessionRequest::SignupList(ListRequest::SignMeUp(text)),
        ClientMessage::TakeMeOff(id_and_receipt) => SessionRequest::SignupList(
            ListRequest::TakeMeOff(id_and_receipt),
        ),
        ClientMessage::ImReady(params) => SessionRequest::Perform {
            rtp_parameters: params.rtp_parameters,
        },
    }
}

/// What a client message leads to: its request, where the session knows the
/// addresses to send it to.
pub open spec fn client_outcome<B, R>(s: SessionModel<B>, msg: ClientMessage<R>) -> Result<
    SessionRequest<R>,
    SessionError,
> {
    if s.addrs is Some {
        Ok(request_for(msg))
    } else {
        Err(SessionError::NoAddressBook)
    }
}

/// A request to the sign-up list, where the session knows its address.
pub open spec fn list_outcome<B>(s: SessionModel<B>, req: ListRequest) -> Result<
    ListRequest,
    SessionError,
> {
    if s.addrs is Some {
        Ok(req)
    } else {
        Err(SessionError::NoAddressBook)
    }
}

/// One user's session: the greeter's address (of type `G`), whether the user
/// has been onboarded, and the address book (of type `B`) from the greeter.
pub struct UserSession<G, B> {
    greeter_addr: G,
    onboarded: bool,
    addrs: Option<B>,
}

impl<G, B> View for UserSession<G, B> {
    type V = SessionModel<B>;

    closed spec fn view(&self) -> SessionModel<B> {
        SessionModel { onboarded: self.onboarded, addrs: self.addrs }
    }
}

impl<G, B> UserSession<G, B> {
    /// The greeter's address.
    pub closed spec fn greeter(&self) -> G {
        self.greeter_addr
    }

    /// A new session that knows only the greeter.
    pub fn new(greeter_addr: G) -> (res: Self)
        ensures
            res@ == fresh_session::<B>(),
            session_invariant(res@),
            res.greeter() == greeter_addr,
    {
        UserSession { greeter_addr, onboarded: false, addrs: None }
    }

    /// The greeter's address.
    pub fn greeter_addr(&self) -> (res: &G)
        ensures
            *res == self.greeter(),
    {
        &self.greeter_addr
    }

    /// Whether the user has been onboarded.
    pub fn is_onboarded(&self) -> (res: bool)
        ensures
            res == self@.onboarded,
    {
        self.onboarded
    }

    /// The address book, once the session has been welcomed.
    pub fn address_book(&self) -> (res: Option<&B>)
        ensures
            res matches Some(b) ==> self@.addrs == Some(*b),
            res is None <==> self@.addrs is None,
    {
        match &self.addrs {
            Some(b) => Some(b),
            None => None,
        }
    }

    /// Runs the onboarding checklist: the request for each task, in order.
    fn onboard(&mut self, checklist: OnboardingChecklist) -> (res: Result<
        Vec<ListRequest>,
        SessionError,
    >)
        ensures
            final(self)@ == onboard_model(old(self)@),
            final(self).greeter() == old(self).greeter(),
            res matches Ok(v) ==> onboard_outcome(old(self)@, checklist@) == Ok::<
                Seq<ListRequest>,
                SessionError,
            >(v@),
            res matches Err(e) ==> onboard_outcome(old(self)@, checklist@) == Err::<
                Seq<ListRequest>,
                SessionError,
            >(e),
    {
        if self.onboarded {
            return Err(SessionError::AlreadyOnboarded);
        }
        let tasks = checklist.into_tasks();
        let mut out: Vec<ListRequest> = Vec::new();
        if self.addrs.is_some() {
            let mut i: usize = 0;
            while i < tasks.len()
                invariant
                    i <= tasks@.len(),
                    out@ =~= task_requests(tasks@.take(i as int)),
                decreases tasks@.len() - i,
            {
                let req = match tasks[i] {
                    OnboardingTask::SubscribeToSignupList => ListRequest::Subscribe,
                };
                out.push(req);
                proof {
                    assert(tasks@.take(i + 1) =~= tasks@.take(i as int).push(tasks@[i as int]));
                }
                i = i + 1;
            }
            proof {
                assert(tasks@.take(tasks@.len() as int) =~= tasks@);
            }
        }
        self.onboarded = true;
        Ok(out)
    }

    /// Handles the greeter's welcome: keeps the address book, onboards the
    /// user and asks for the whole list. A second welcome is refused and
    /// changes nothing.
    pub fn welcome(&mut self, msg: WelcomeMessage<B>) -> (res: Result<
        Vec<ListRequest>,
        SessionError,
    >)
        ensures
            final(self)@ == welcome_model(old(self)@, msg.addrs),
            session_invariant(old(self)@) ==> session_invariant(final(self)@),
            final(self).greeter() == old(self).greeter(),
            res matches Ok(v) ==> welcome_outcome(old(self)@, msg.checklist@) == Ok::<
                Seq<ListRequest>,
                SessionError,
            >(v@),
            res matches Err(e) ==> welcome_outcome(old(self)@, msg.checklist@) == Err::<
                Seq<ListRequest>,
                SessionError,
            >(e),
    {
        if self.onboarded {
            return Err(SessionError::AlreadyOnboarded);
        }
        self.addrs = Some(msg.addrs);
        let mut requests = match self.onboard(msg.checklist) {
            Ok(v) => v,
            Err(_) => Vec::new(),
        };
        requests.push(ListRequest::GetList);
        Ok(requests)
    }

    /// The request that a client message leads to.
    pub fn handle_client_message<R>(&self, msg: ClientMessage<R>) -> (res: Result<
        SessionRequest<R>,
        SessionError,
    >)
        ensures
            res == client_outcome(self@, msg),
            self@.addrs is None ==> res == Err::<SessionRequest<R>, SessionError>(
                SessionError::NoAddressBook,
            ),
            self@.addrs is Some && msg is GetList ==> (res matches Ok(
                SessionRequest::SignupList(ListRequest::GetList),
            )),
            self@.addrs is Some ==> (msg matches ClientMessage::SignMeUp(t) ==> (res matches Ok(
                SessionRequest::SignupList(ListRequest::SignMeUp(t2)),
            ) && t2 == t)),
            self@.addrs is Some ==> (msg matches ClientMessage::TakeMeOff(x) ==> (res matches Ok(
                SessionRequest::SignupList(ListRequest::TakeMeOff(y)),
            ) && y.id == x.id && y.receipt == x.receipt)),
            self@.addrs is Some ==> (msg matches ClientMessage::ImReady(p) ==> (res matches Ok(
                SessionRequest::Perform { rtp_parameters },
            ) && rtp_parameters == p.rtp_parameters)),
    {
        if self.addrs.is_none() {
            return Err(SessionError::NoAddressBook);
        }
        let req = match msg {
            ClientMessage::GetList => SessionRequest::SignupList(ListRequest::GetList),
            ClientMessage::SignMeUp(text) => SessionRequest::SignupList(ListRequest::SignMeUp(text)),
            ClientMessage::TakeMeOff(id_and_receipt) => SessionRequest::SignupList(
                ListRequest::TakeMeOff(id_and_receipt),
            ),
            ClientMessage::ImReady(params) => SessionRequest::Perform {
                rtp_parameters: params.rtp_parameters,
            },
        };
        Ok(req)
    }

    /// Asks the sign-up list for the whole list.
    pub fn get_signup_list(&self) -> (res: Result<ListRequest, SessionError>)
        ensures
            res == list_outcome(self@, ListRequest::GetList),
    {
        if self.addrs.is_none() {
            return Err(SessionError::NoAddressBook);
        }
        Ok(ListRequest::GetList)
    }

    /// Asks the sign-up list to stop sending updates (when the session stops).
    pub fn unsubscribe_from_signup_list(&self) -> (res: Result<ListRequest, SessionError>)
        ensures
            res == list_outcome(self@, ListRequest::Unsubscribe),
    {
        if self.addrs.is_none() {
            return Err(SessionError::NoAddressBook);
        }
        Ok(ListRequest::Unsubscribe)
    }
}

/// Law: a session is welcomed at most once. After a welcome, another
/// welcome changes nothing and is refused.
pub proof fn lemma_welcome_accepted_once<B>(
    s: SessionModel<B>,
    first: B,
    second: B,
    tasks: Seq<OnboardingTask>,
)
    ensures
        welcome_model(welcome_model(s, first), second) == welcome_model(s, first),
        welcome_outcome(welcome_model(s, first), tasks) == Err::<Seq<ListRequest>, SessionError>(
            SessionError::AlreadyOnboarded,
        ),
{
}

/// Law: a new session, welcomed with the standard checklist, asks to be
/// subscribed to the sign-up list and then for the whole list.
pub proof fn lemma_new_user_subscribes_then_lists<B>()
    ensures
        welcome_outcome(fresh_session::<B>(), standard_checklist()) == Ok::<
            Seq<ListRequest>,
            SessionError,
        >(seq![ListRequest::Subscribe, ListRequest::GetList]),
{
    assert(task_requests(standard_checklist()) =~= seq![ListRequest::Subscribe]);
    assert(task_requests(standard_checklist()).push(ListRequest::GetList) =~= seq![
        ListRequest::Subscribe,
        ListRequest::GetList,
    ]);
}

/// Law: onboarding runs at most once. A session that is not yet onboarded
/// runs every task of the checklist once, in order (each task that needs the
/// address book is skipped while the session has none), and ends onboarded;
/// onboarding it again is refused and changes nothing.
pub proof fn lemma_onboard_at_most_once<B>(s: SessionModel<B>, first: Seq<OnboardingTask>, second: Seq<OnboardingTask>)
    requires
        !s.onboarded,
    ensures
        onboard_model(s).onboarded,
        onboard_model(s).addrs == s.addrs,
        s.addrs is Some ==> onboard_outcome(s, first) == Ok::<Seq<ListRequest>, SessionError>(
            task_requests(first),
        ),
        s.addrs is None ==> onboard_outcome(s, first) == Ok::<Seq<ListRequest>, SessionError>(
            Seq::empty(),
        ),
        task_requests(first).len() == first.len(),
        forall|i: int| 0 <= i < first.len() ==> #[trigger] task_requests(first)[i] == task_request(first[i]),
        onboard_outcome(onboard_model(s), second) == Err::<Seq<ListRequest>, SessionError>(
            SessionError::AlreadyOnboarded,
        ),
        onboard_model(onboard_model(s)) == onboard_model(s),
{
}

/// Law: onboarding is never undone: once onboarded, a session stays
/// onboarded through welcomes and onboarding attempts.
pub proof fn lemma_onboarding_is_kept<B>(s: SessionModel<B>, addrs: B)
    requires
        s.onboarded,
    ensures
        welcome_model(s, addrs).onboarded,
        onboard_model(s).onboarded,
{
}

/// Law: before its welcome, a session serves no request: each client
/// message is refused for want of an address book.
pub proof fn lemma_requests_wait_for_welcome<B, R>(msg: ClientMessage<R>)
    ensures
        client_outcome(fresh_session::<B>(), msg) == Err::<SessionRequest<R>, SessionError>(
            SessionError::NoAddressBook,
        ),
        list_outcome(fresh_session::<B>(), ListRequest::GetList) == Err::<ListRequest, SessionError>(
            SessionError::NoAddressBook,
        ),
{
}

/// Law: once welcomed, a session passes every client message on as its
/// request.
pub proof fn lemma_welcomed_session_serves<B, R>(s: SessionModel<B>, addrs: B, msg: ClientMessage<R>)
    requires
        session_invariant(s),
    ensures
        client_outcome(welcome_model(s, addrs), msg) == Ok::<SessionRequest<R>, SessionError>(
            request_for(msg),
        ),
{
}

/// Law: a forwarded list message carries the sign-up list's content
/// unchanged: a whole list becomes the same whole list, a new entry the same
/// entry with the same count, a removal the same id with the same count.
pub proof fn lemma_forwarding_keeps_content<T>(msg: SignupListMessage)
    ensures
        msg matches SignupListMessage::All { list } ==> (server_message_of::<T>(
            msg,
        ) matches ServerMessage::WholeSignupList(l) && l@ == list@),
        msg matches SignupListMessage::Add { new, counter } ==> (server_message_of::<T>(
            msg,
        ) matches ServerMessage::NewSignup { entry, counter: c } && entry == new && c@ == counter@),
        msg matches SignupListMessage::Del { id, counter } ==> (server_message_of::<T>(
            msg,
        ) matches ServerMessage::ListRemoval { id: i, counter: c } && i == id && c@ == counter@),
{
}

/// Law: a welcomed session passes each client message on with its content
/// unchanged: the text to sign up, the id and receipt of the entry to take
/// off, and the media parameters to perform with; a session that knows no
/// address book refuses every message.
pub proof fn lemma_requests_keep_content<B, R>(s: SessionModel<B>, msg: ClientMessage<R>)
    ensures
        s.addrs is None ==> client_outcome(s, msg) == Err::<SessionRequest<R>, SessionError>(
            SessionError::NoAddressBook,
        ),
        s.addrs is Some && msg is GetList ==> (client_outcome(s, msg) matches Ok(
            SessionRequest::SignupList(ListRequest::GetList),
        )),
        s.addrs is Some ==> (msg matches ClientMessage::SignMeUp(t) ==> (client_outcome(
            s,
            msg,
        ) matches Ok(SessionRequest::SignupList(ListRequest::SignMeUp(t2))) && t2 == t)),
        s.addrs is Some ==> (msg matches ClientMessage::TakeMeOff(x) ==> (client_outcome(
            s,
            msg,
        ) matches Ok(SessionRequest::SignupList(ListRequest::TakeMeOff(y))) && y.id == x.id
            && y.receipt == x.receipt)),
        s.addrs is Some ==> (msg matches ClientMessage::ImReady(p) ==> (client_outcome(
            s,
            msg,
        ) matches Ok(SessionRequest::Perform { rtp_parameters }) && rtp_parameters
            == p.rtp_parameters)),
{
}

/// The kinds of frame a websocket delivers.
#[derive(Clone, Copy, Debug, PartialEq, Eq, Structural)]
pub enum WsFrame {
    Ping,
    Pong,
    Text,
    Binary,
    Close,
    Continuation,
    Nop,
    ProtocolError,
}

/// What a session does with a websocket frame.
#[derive(Clone, Copy, Debug, PartialEq, Eq, Structural)]
pub enum WsReaction {
    /// Answer with a pong carrying the ping's payload.
    Pong,
    /// Nothing.
    Ignore,
    /// Parse the text as a client message and handle it.
    HandleText,
    /// Report an unexpected binary frame.
    ReportBinary,
    /// Close the socket with the given reason and stop.
    CloseAndStop,
    /// Stop the session.
    Stop,
}

/// The reaction to each kind of frame.
pub open spec fn frame_reaction(frame: WsFrame) -> WsReaction {
    match frame {
        WsFrame::Ping => WsReaction::Pong,
        WsFrame::Pong => WsReaction::Ignore,
        WsFrame::Text => WsReaction::HandleText,
        WsFrame::Binary => WsReaction::ReportBinary,
        WsFrame::Close => WsReaction::CloseAndStop,
        _ => WsReaction::Stop,
    }
}

/// What to do with a websocket frame.
pub fn react_to_frame(frame: WsFrame) -> (res: WsReaction)
    ensures
        res == frame_reaction(frame),
{
    match frame {
        WsFrame::Ping => WsReaction::Pong,
        WsFrame::Pong => WsReaction::Ignore,
        WsFrame::Text => WsReaction::HandleText,
        WsFrame::Binary => WsReaction::ReportBinary,
        WsFrame::Close => WsReaction::CloseAndStop,
        _ => WsReaction::Stop,
    }
}

} // verus!
