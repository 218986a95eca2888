//! The orchestrator of the language server: the handshake gate, then the
//! main loop routing every request and notification to its handler.

use vstd::prelude::*;
use vstd::pervasive::unreached;
use vstd::string::StringExecFns;

use crate::dispatcher::{
    HandlerOutcome, NotificationDispatcher, RequestDispatcher, is_method_not_found,
    response_for, spec_response_for,
};
use crate::protocol::{ErrorCode, Json, Message, Notification, Request, Response};
use crate::state::State;

verus! {

/// Declares flume::Receiver, the receiving half of a channel, so that
/// the server may hold the inbound queue; it stays opaque here.
#[verifier::external_type_specification]
#[verifier::external_body]
#[verifier::reject_recursive_types(T)]
pub struct ExReceiver<T>(flume::Receiver<T>);

/// Relies on flume::Receiver::recv: blocks until a message arrives or
/// every sender is gone. Nothing is promised of which message arrives;
/// the loops below hold for every outcome.
#[verifier::external_body]
fn recv_message(receiver: &flume::Receiver<Message>) -> (r: Option<Message>) {
    match receiver.recv() {
        Ok(m) => Some(m),
        Err(_) => None,
    }
}

/// The connection's phase: everything but the handshake itself is gated
/// until `Initialized`.
#[derive(Clone, Copy, PartialEq, Eq, Structural, Debug)]
pub enum ServerState {
    Uninitialized,
    Initialized,
}

/// The one-directional transition of the connection: only the
/// `initialized` notification moves the machine forward, exactly once,
/// and no message moves it back.
pub open spec fn spec_next_state(s: ServerState, m: Message) -> ServerState {
    if s == ServerState::Uninitialized && (m matches Message::Notification(n)
        && n.method@ == "initialized"@) {
        ServerState::Initialized
    } else {
        s
    }
}

/// True of the one message that ends the loop, whatever the state.
pub open spec fn spec_exits(m: Message) -> bool {
    m matches Message::Notification(n) && n.method@ == "exit"@
}

/// What the handshake loop does with one inbound message.
pub enum HandshakeStep {
    /// The `initialize` request: answer it and keep waiting.
    Opening(Request),
    /// The `initialized` notification: the handshake is complete.
    Complete(Notification),
    /// Any other request: refuse it with ServerNotInitialized.
    Refuse(Request),
    /// The `exit` notification: close the connection at once.
    Quit,
    /// Any other message: ignore it, state unchanged.
    Skip,
}

/// The handshake decision, by method name alone.
pub open spec fn spec_handshake_step(m: Message) -> HandshakeStep {
    match m {
        Message::Request(r) => if r.method@ == "initialize"@ {
            HandshakeStep::Opening(r)
        } else {
            HandshakeStep::Refuse(r)
        },
        Message::Notification(n) => if n.method@ == "initialized"@ {
            HandshakeStep::Complete(n)
        } else if n.method@ == "exit"@ {
            HandshakeStep::Quit
        } else {
            HandshakeStep::Skip
        },
        Message::Response(_) => HandshakeStep::Skip,
    }
}

fn handshake_step(m: Message) -> (s: HandshakeStep)
    ensures
        s == spec_handshake_step(m),
{
    match m {
        Message::Request(r) => if r.is_initialize() {
            HandshakeStep::Opening(r)
        } else {
            HandshakeStep::Refuse(r)
        },
        Message::Notification(n) => if n.is_initialized() {
            HandshakeStep::Complete(n)
        } else if n.is_exit() {
            HandshakeStep::Quit
        } else {
            HandshakeStep::Skip
        },
        Message::Response(_) => HandshakeStep::Skip,
    }
}

/// What the main loop does with one inbound message.
pub enum LoopStep {
    /// A request: route it and answer with exactly one response.
    HandleRequest(Request),
    /// A notification other than `exit`: route it, never answer it.
    HandleNotification(Notification),
    /// The `exit` notification: end the loop unconditionally.
    Quit,
    /// A stray response from the peer: ignore it.
    Skip,
}

/// The main-loop decision, by message kind and method name alone — in
/// particular it takes no state, so `exit` ends the loop whatever came
/// before.
pub open spec fn spec_loop_step(m: Message) -> LoopStep {
    match m {
        Message::Request(r) => LoopStep::HandleRequest(r),
        Message::Notification(n) => if n.method@ == "exit"@ {
            LoopStep::Quit
        } else {
            LoopStep::HandleNotification(n)
        },
        Message::Response(_) => LoopStep::Skip,
    }
}

fn loop_step(m: Message) -> (s: LoopStep)
    ensures
        s == spec_loop_step(m),
{
    match m {
        Message::Request(r) => LoopStep::HandleRequest(r),
        Message::Notification(n) => if n.is_exit() {
            LoopStep::Quit
        } else {
            LoopStep::HandleNotification(n)
        },
        Message::Response(_) => LoopStep::Skip,
    }
}

/// The message of the refusal sent for a request that arrives before
/// the handshake has completed.
pub open spec fn not_initialized_message(m: Seq<char>) -> Seq<char> {
    "expected an `initialize` request but received `"@ + m + "`"@
}

/// The refusal owed for a request that arrives while Uninitialized: the
/// ServerNotInitialized code, the request's id echoed, and a message
/// naming the offending method.
pub open spec fn is_not_initialized_response(req: Request, r: Response) -> bool {
    &&& r.id == req.id
    &&& r.result is None
    &&& r.error matches Some(e)
    &&& e.code == ErrorCode::ServerNotInitialized
    &&& e.message@ == not_initialized_message(req.method@)
}

/// Builds the refusal for a request received before initialization.
pub fn not_initialized_response(req: Request) -> (r: Response)
    ensures
        is_not_initialized_response(req, r),
        r.wf(),
{
    let mut msg = "expected an `initialize` request but received `".to_owned();
    msg.append(req.method.as_str());
    msg.append("`");
    Response::new_error(req.id, ErrorCode::ServerNotInitialized, msg)
}

/// The opaque semantic handlers the dispatcher invokes. The core only
/// routes: implementations decode the params themselves and report a
/// failed decode as `HandlerError::InvalidParams`. Each call receives
/// the shared state by exclusive reference for its own duration only.
pub trait Handlers {
    /// Answers the `initialize` request, normally with the server's
    /// capabilities.
    fn initialize(&mut self, state: &mut State, params: Json) -> HandlerOutcome;

    /// Runs the side effects of the completed handshake.
    fn initialized(&mut self, state: &mut State, params: Json);

    /// Answers the `shutdown` request.
    fn shutdown(&mut self, state: &mut State, params: Json) -> HandlerOutcome;

    /// Answers a `textDocument/completion` request.
    fn completion(&mut self, state: &mut State, params: Json) -> HandlerOutcome;

    /// Answers a `textDocument/hover` request.
    fn hover(&mut self, state: &mut State, params: Json) -> HandlerOutcome;

    /// Consumes a `textDocument/didOpen` notification.
    fn did_open_text_document(&mut self, state: &mut State, params: Json);

    /// Consumes a `textDocument/didChange` notification.
    fn did_change_text_document(&mut self, state: &mut State, params: Json);

    /// Consumes a `textDocument/didSave` notification.
    fn did_save_text_document(&mut self, state: &mut State, params: Json);

    /// Consumes a `workspace/didChangeConfiguration` notification.
    fn did_change_configuration(&mut self, state: &mut State, params: Json);
}

/// Handlers that answer every request with an empty result and give
/// notifications no side effects: enough to exercise the protocol core.
pub struct DefaultHandlers;

impl Handlers for DefaultHandlers {
    fn initialize(&mut self, state: &mut State, params: Json) -> HandlerOutcome {
        let caps: Vec<(String, Json)> = Vec::new();
        let mut top: Vec<(String, Json)> = Vec::new();
        top.push(("capabilities".to_owned(), Json::Obj(caps)));
        Ok(Json::Obj(top))
    }

    fn initialized(&mut self, state: &mut State, params: Json) {
    }

    fn shutdown(&mut self, state: &mut State, params: Json) -> HandlerOutcome {
        Ok(Json::Null)
    }

    fn completion(&mut self, state: &mut State, params: Json) -> HandlerOutcome {
        Ok(Json::Null)
    }

    fn hover(&mut self, state: &mut State, params: Json) -> HandlerOutcome {
        Ok(Json::Null)
    }

    fn did_open_text_document(&mut self, state: &mut State, params: Json) {
    }

    fn did_change_text_document(&mut self, state: &mut State, params: Json) {
    }

    fn did_save_text_document(&mut self, state: &mut State, params: Json) {
    }

    fn did_change_configuration(&mut self, state: &mut State, params: Json) {
    }
}

/// The request methods the main loop routes to a handler.
pub open spec fn is_registered_request(m: Seq<char>) -> bool {
    m == "shutdown"@ || m == "textDocument/completion"@ || m == "textDocument/hover"@
}

/// The notification methods the main loop routes to a handler. The
/// `initialized` notification is not among them: after the handshake it
/// is an ordinary unregistered notification and is dropped.
pub open spec fn is_registered_notification(m: Seq<char>) -> bool {
    m == "textDocument/didOpen"@ || m == "textDocument/didChange"@ || m
        == "textDocument/didSave"@ || m == "workspace/didChangeConfiguration"@
}

/// Routes one request after initialization. The registrations are tried
/// in order; the first whose method matches runs its handler and the
/// outcome becomes the response. Exactly one response comes back, its id
/// always the request's own; an unregistered method is answered
/// MethodNotFound.
pub fn dispatch_request<H: Handlers>(handlers: &mut H, state: &mut State, req: Request) -> (resp:
    Response)
    ensures
        resp.id == req.id,
        resp.wf(),
        !is_registered_request(req.method@) ==> is_method_not_found(req, resp)
            && final(state).sent() == old(state).sent(),
        is_registered_request(req.method@) ==> exists|o: HandlerOutcome|
            resp == spec_response_for(req.id, o),
{
    let mut d = RequestDispatcher::new(req);
    if let Some(r) = d.claim("shutdown") {
        let o = handlers.shutdown(state, r.params);
        let resp = response_for(r.id, o);
        proof {
            assert(exists|oo: HandlerOutcome| resp == spec_response_for(req.id, oo));
        }
        return resp;
    }
    if let Some(r) = d.claim("textDocument/completion") {
        let o = handlers.completion(state, r.params);
        let resp = response_for(r.id, o);
        proof {
            assert(exists|oo: HandlerOutcome| resp == spec_response_for(req.id, oo));
        }
        return resp;
    }
    if let Some(r) = d.claim("textDocument/hover") {
        let o = handlers.hover(state, r.params);
        let resp = response_for(r.id, o);
        proof {
            assert(exists|oo: HandlerOutcome| resp == spec_response_for(req.id, oo));
        }
        return resp;
    }
    match d.finish() {
        Some(resp) => resp,
        None => unreached(),
    }
}

/// Routes one notification after initialization; one nobody registered
/// is dropped, there being no response channel for notifications.
pub fn dispatch_notification<H: Handlers>(
    handlers: &mut H,
    state: &mut State,
    not: Notification,
) -> (dropped: bool)
    ensures
        dropped == !is_registered_notification(not.method@),
        !is_registered_notification(not.method@) ==> final(state).sent() == old(state).sent(),
{
    let mut d = NotificationDispatcher::new(not);
    if let Some(n) = d.claim("textDocument/didOpen") {
        handlers.did_open_text_document(state, n.params);
    } else if let Some(n) = d.claim("textDocument/didChange") {
        handlers.did_change_text_document(state, n.params);
    } else if let Some(n) = d.claim("textDocument/didSave") {
        handlers.did_save_text_document(state, n.params);
    } else if let Some(n) = d.claim("workspace/didChangeConfiguration") {
        handlers.did_change_configuration(state, n.params);
    }
    d.finish()
}

/// What the handshake phase decided for one inbound message.
#[derive(Clone, Copy, PartialEq, Eq, Structural, Debug)]
pub enum HandshakePhase {
    /// Keep waiting for the handshake to complete.
    Waiting,
    /// The `initialized` notification arrived; the main loop may start.
    Complete,
    /// `exit` arrived before initializing: close the connection.
    Closed,
}

/// The server side of the connection before the handshake has
/// completed. The caller's loop blocks on [`Server::recv`] and feeds
/// each message to [`Server::initialize_step`] until the phase ends.
pub struct Server<H: Handlers> {
    receiver: flume::Receiver<Message>,
    state: State,
    handlers: H,
}

impl<H: Handlers> Server<H> {
    /// The messages this server has handed to the outbound channel,
    /// oldest first.
    pub closed spec fn sent(&self) -> Seq<Message> {
        self.state.sent()
    }

    /// Constructs a new `Server` from the inbound channel, the shared
    /// state and the semantic handlers.
    pub fn new(receiver: flume::Receiver<Message>, state: State, handlers: H) -> (s: Server<H>)
        ensures
            s.sent() == state.sent(),
    {
        Server { receiver, state, handlers }
    }

    /// Blocks for the next inbound message; nothing once the peer has
    /// disconnected.
    pub fn recv(&self) -> Option<Message> {
        recv_message(&self.receiver)
    }

    /// Handles one inbound message of the handshake phase: the
    /// `initialize` request is answered through its handler; any other
    /// request is refused with a ServerNotInitialized response echoing
    /// its id and naming its method, the phase staying as it was; a
    /// stray notification is ignored. Only the `initialized`
    /// notification completes the phase, and only `exit` closes it.
    pub fn initialize_step(&mut self, m: Message) -> (r: HandshakePhase)
        ensures
            (r == HandshakePhase::Complete) == (spec_handshake_step(m) matches
                HandshakeStep::Complete(_)),
            (r == HandshakePhase::Closed) == spec_exits(m),
            (r == HandshakePhase::Complete) == (spec_next_state(ServerState::Uninitialized, m)
                == ServerState::Initialized),
            spec_handshake_step(m) matches HandshakeStep::Refuse(req) ==> exists|resp: Response|
                #![auto]
                ({
                    &&& final(self).sent() == old(self).sent().push(Message::Response(resp))
                    &&& is_not_initialized_response(req, resp)
                    &&& resp.wf()
                }),
            spec_handshake_step(m) matches HandshakeStep::Opening(req) ==> ({
                &&& final(self).sent().len() >= 1
                &&& final(self).sent().last() matches Message::Response(resp)
                &&& resp.id == req.id
                &&& resp.wf()
                &&& exists|o: HandlerOutcome| resp == spec_response_for(req.id, o)
            }),
            spec_handshake_step(m) is Quit || spec_handshake_step(m) is Skip ==> final(self).sent()
                == old(self).sent(),
    {
        proof {
            reveal_strlit("initialized");
            reveal_strlit("exit");
            assert("initialized"@.len() == 11 && "exit"@.len() == 4);
        }
        match handshake_step(m) {
            HandshakeStep::Opening(req) => {
                let o = self.handlers.initialize(&mut self.state, req.params);
                let resp = response_for(req.id, o);
                self.state.send(Message::Response(resp));
                HandshakePhase::Waiting
            },
            HandshakeStep::Complete(n) => {
                self.handlers.initialized(&mut self.state, n.params);
                HandshakePhase::Complete
            },
            HandshakeStep::Refuse(req) => {
                let resp = not_initialized_response(req);
                self.state.send(Message::Response(resp));
                HandshakePhase::Waiting
            },
            HandshakeStep::Quit => HandshakePhase::Closed,
            HandshakeStep::Skip => HandshakePhase::Waiting,
        }
    }

    /// Consumes the server once the handshake has completed; nothing
    /// already handed to the outbound channel is lost.
    pub fn into_initialized(self) -> (r: InitializedServer<H>)
        ensures
            r.sent() == self.sent(),
    {
        let Server { receiver, state, handlers } = self;
        InitializedServer { receiver, state, handlers }
    }
}

/// An initialized server: the handshake has completed and every message
/// is routed through the dispatcher. The caller's loop blocks on
/// [`InitializedServer::recv`] and feeds each message to
/// [`InitializedServer::run_step`] until it says to stop.
pub struct InitializedServer<H: Handlers> {
    receiver: flume::Receiver<Message>,
    state: State,
    handlers: H,
}

impl<H: Handlers> InitializedServer<H> {
    /// The messages this server has handed to the outbound channel,
    /// oldest first.
    pub closed spec fn sent(&self) -> Seq<Message> {
        self.state.sent()
    }

    /// Blocks for the next inbound message; nothing once the peer has
    /// disconnected.
    pub fn recv(&self) -> Option<Message> {
        recv_message(&self.receiver)
    }

    /// Handles one inbound message of the main loop: a request is
    /// routed and answered with exactly one response; a registered
    /// notification runs its handler and an unregistered one is
    /// dropped; a stray response is ignored. The answer says whether to
    /// keep looping, and is false exactly on the `exit` notification —
    /// whatever came before it.
    pub fn run_step(&mut self, m: Message) -> (keep_going: bool)
        ensures
            keep_going == !spec_exits(m),
            m matches Message::Request(req) ==> ({
                &&& final(self).sent().len() >= 1
                &&& final(self).sent().last() matches Message::Response(resp)
                &&& resp.id == req.id
                &&& resp.wf()
                &&& (!is_registered_request(req.method@) ==> is_method_not_found(req, resp))
                &&& (is_registered_request(req.method@) ==> exists|o: HandlerOutcome|
                    resp == spec_response_for(req.id, o))
            }),
            m matches Message::Request(req) ==> (!is_registered_request(req.method@)
                ==> exists|resp: Response|
                #![auto]
                ({
                    &&& final(self).sent() == old(self).sent().push(Message::Response(resp))
                    &&& is_method_not_found(req, resp)
                })),
            m matches Message::Notification(n) ==> (!is_registered_notification(n.method@)
                ==> final(self).sent() == old(self).sent()),
            m matches Message::Response(_) ==> final(self).sent() == old(self).sent(),
    {
        match loop_step(m) {
            LoopStep::HandleRequest(req) => {
                let resp = dispatch_request(&mut self.handlers, &mut self.state, req);
                self.state.send(Message::Response(resp));
                true
            },
            LoopStep::HandleNotification(n) => {
                let _dropped = dispatch_notification(&mut self.handlers, &mut self.state, n);
                true
            },
            LoopStep::Quit => false,
            LoopStep::Skip => true,
        }
    }
}

/// Responsible for the server's main loop logic: drives one whole
/// connection over a finite queue of inbound messages — the handshake
/// phase first, then the main loop — through the same steps a live
/// connection feeds one by one as it blocks on `recv`. Reports whether
/// an `exit` notification ended the session: it does so exactly when
/// one stands in the queue, whatever precedes it.
pub fn __start<H: Handlers>(server: Server<H>, inbox: Vec<Message>) -> (exited: bool)
    ensures
        exited == exists|i: int| 0 <= i < inbox@.len() && spec_exits(#[trigger] inbox@[i]),
{
    let ghost all = inbox@;
    let mut queue = inbox;
    let mut server = server;
    let ghost mut k: int = 0;
    let mut completed = false;
    let mut closed = false;
    proof {
        assert(all.skip(0) =~= all);
    }
    while queue.len() > 0 && !completed && !closed
        invariant
            0 <= k <= all.len(),
            !closed ==> queue@ == all.skip(k),
            forall|i: int| 0 <= i < k ==> !spec_exits(#[trigger] all[i]),
            closed ==> k < all.len() && spec_exits(all[k]),
        decreases queue@.len(),
    {
        let m = queue.remove(0);
        proof {
            assert(m == all.skip(k)[0]);
            assert(all.skip(k)[0] == all[k]);
            assert(all.skip(k).remove(0) =~= all.skip(k + 1));
        }
        match server.initialize_step(m) {
            HandshakePhase::Waiting => {
                proof {
                    k = k + 1;
                }
            },
            HandshakePhase::Complete => {
                proof {
                    k = k + 1;
                }
                completed = true;
            },
            HandshakePhase::Closed => {
                closed = true;
            },
        }
    }
    if closed {
        proof {
            assert(spec_exits(all[k]));
        }
        return true;
    }
    if !completed {
        proof {
            assert(queue@.len() == 0);
            assert(k == all.len());
        }
        return false;
    }
    let mut initialized = server.into_initialized();
    let mut exit_seen = false;
    while queue.len() > 0 && !exit_seen
        invariant
            0 <= k <= all.len(),
            !exit_seen ==> queue@ == all.skip(k),
            forall|i: int| 0 <= i < k ==> !spec_exits(#[trigger] all[i]),
            exit_seen ==> k < all.len() && spec_exits(all[k]),
        decreases queue@.len(),
    {
        let m = queue.remove(0);
        proof {
            assert(m == all.skip(k)[0]);
            assert(all.skip(k)[0] == all[k]);
            assert(all.skip(k).remove(0) =~= all.skip(k + 1));
        }
        if initialized.run_step(m) {
            proof {
                k = k + 1;
            }
        } else {
            exit_seen = true;
        }
    }
    if exit_seen {
        proof {
            assert(spec_exits(all[k]));
        }
        return true;
    }
    proof {
        assert(queue@.len() == 0);
        assert(k == all.len());
    }
    false
}

/// Law: a request never moves the state machine — in particular, while
/// Uninitialized, a request other than `initialize` is refused with the
/// ServerNotInitialized code and its own id, and the state remains
/// Uninitialized.
pub proof fn lemma_uninitialized_refusal(req: Request, r: Response)
    requires
        req.method@ != "initialize"@,
        is_not_initialized_response(req, r),
    ensures
        spec_handshake_step(Message::Request(req)) == HandshakeStep::Refuse(req),
        r.id == req.id,
        r.error matches Some(e) && e.code == ErrorCode::ServerNotInitialized,
        spec_next_state(ServerState::Uninitialized, Message::Request(req))
            == ServerState::Uninitialized,
{
}

/// Law: the handshake transitions exactly once. The `initialized`
/// notification moves Uninitialized to Initialized, and from
/// Initialized every message — a repeated `initialized` included —
/// leaves the state Initialized; a repeated `initialized` is moreover
/// unregistered in the main loop and so is dropped.
pub proof fn lemma_handshake_once(n: Notification, m: Message)
    requires
        n.method@ == "initialized"@,
    ensures
        spec_next_state(ServerState::Uninitialized, Message::Notification(n))
            == ServerState::Initialized,
        spec_next_state(ServerState::Initialized, m) == ServerState::Initialized,
        !is_registered_notification(n.method@),
{
    reveal_strlit("initialized");
    reveal_strlit("textDocument/didOpen");
    reveal_strlit("textDocument/didChange");
    reveal_strlit("textDocument/didSave");
    reveal_strlit("workspace/didChangeConfiguration");
    assert("initialized"@.len() == 11);
    assert("textDocument/didOpen"@.len() == 20);
    assert("textDocument/didChange"@.len() == 22);
    assert("textDocument/didSave"@.len() == 20);
    assert("workspace/didChangeConfiguration"@.len() == 32);
}

/// Law: the `exit` notification ends the loop in both phases — whether
/// or not a `shutdown` request ever preceded it, and whether the
/// connection is Uninitialized or Initialized.
pub proof fn lemma_exit_always_quits(n: Notification)
    requires
        n.method@ == "exit"@,
    ensures
        spec_exits(Message::Notification(n)),
        spec_handshake_step(Message::Notification(n)) == HandshakeStep::Quit,
        spec_loop_step(Message::Notification(n)) == LoopStep::Quit,
{
    reveal_strlit("exit");
    reveal_strlit("initialized");
    assert("exit"@.len() == 4);
    assert("initialized"@.len() == 11);
}

} // verus!
