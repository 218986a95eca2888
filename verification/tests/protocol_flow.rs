//! The handshake gate, the main loop's routing, and the shutdown
//! discipline, exercised through the public step functions with real
//! channels underneath.

use helios_ls::dispatcher::{HandlerError, HandlerOutcome};
use helios_ls::protocol::{ErrorCode, Json, Message, Notification, Request, RequestId, Response};
use helios_ls::server::{DefaultHandlers, Handlers, HandshakePhase, Server};
use helios_ls::state::State;

fn request(id: i64, method: &str, params: Json) -> Message {
    Message::Request(Request {
        id: RequestId::Num(id),
        method: String::from(method),
        params,
    })
}

fn notification(method: &str) -> Message {
    Message::Notification(Notification {
        method: String::from(method),
        params: Json::Null,
    })
}

fn new_server() -> (Server<DefaultHandlers>, flume::Receiver<Message>) {
    let (_tx_in, rx_in) = flume::unbounded::<Message>();
    let (tx_out, rx_out) = flume::unbounded::<Message>();
    let server = Server::new(rx_in, State::new(tx_out), DefaultHandlers);
    (server, rx_out)
}

fn expect_response(rx: &flume::Receiver<Message>) -> Response {
    match rx.try_recv().expect("a message should have been sent") {
        Message::Response(r) => r,
        other => panic!("expected a response, got {:?}", other),
    }
}

#[test]
fn uninitialized_request_is_refused_with_server_not_initialized() {
    let (mut server, rx_out) = new_server();
    let phase = server.initialize_step(request(5, "textDocument/hover", Json::Null));
    assert_eq!(phase, HandshakePhase::Waiting);
    let resp = expect_response(&rx_out);
    assert_eq!(resp.id, RequestId::Num(5));
    assert!(resp.result.is_none());
    let err = resp.error.expect("the refusal must carry an error");
    assert_eq!(err.code, ErrorCode::ServerNotInitialized);
    assert_eq!(err.code.code(), -32002);
    assert_eq!(
        err.message,
        "expected an `initialize` request but received `textDocument/hover`"
    );
    assert!(rx_out.try_recv().is_err());
}

#[test]
fn uninitialized_notification_is_ignored() {
    let (mut server, rx_out) = new_server();
    let phase = server.initialize_step(notification("textDocument/didSave"));
    assert_eq!(phase, HandshakePhase::Waiting);
    assert!(rx_out.try_recv().is_err());
}

#[test]
fn handshake_transitions_exactly_once() {
    let (mut server, rx_out) = new_server();
    let phase = server.initialize_step(request(1, "initialize", Json::Obj(Vec::new())));
    assert_eq!(phase, HandshakePhase::Waiting);
    let resp = expect_response(&rx_out);
    assert_eq!(resp.id, RequestId::Num(1));
    assert!(resp.result.is_some());
    assert!(resp.error.is_none());

    let phase = server.initialize_step(notification("initialized"));
    assert_eq!(phase, HandshakePhase::Complete);
    let mut initialized = server.into_initialized();

    // A second `initialized` is an ordinary unregistered notification
    // now: it is dropped without any response and the loop goes on.
    assert!(initialized.run_step(notification("initialized")));
    assert!(rx_out.try_recv().is_err());
}

#[test]
fn unregistered_request_gets_method_not_found() {
    let (mut server, rx_out) = new_server();
    server.initialize_step(request(1, "initialize", Json::Null));
    let _ = expect_response(&rx_out);
    server.initialize_step(notification("initialized"));
    let mut initialized = server.into_initialized();

    assert!(initialized.run_step(request(9, "workspace/symbol", Json::Null)));
    let resp = expect_response(&rx_out);
    assert_eq!(resp.id, RequestId::Num(9));
    assert!(resp.result.is_none());
    let err = resp.error.expect("unregistered methods are answered with an error");
    assert_eq!(err.code, ErrorCode::MethodNotFound);
    assert_eq!(err.code.code(), -32601);
    assert_eq!(err.message, "method not found: workspace/symbol");
}

struct PickyHandlers;

impl Handlers for PickyHandlers {
    fn initialize(&mut self, _state: &mut State, _params: Json) -> HandlerOutcome {
        Ok(Json::Null)
    }

    fn initialized(&mut self, _state: &mut State, _params: Json) {}

    fn shutdown(&mut self, _state: &mut State, _params: Json) -> HandlerOutcome {
        Ok(Json::Null)
    }

    fn completion(&mut self, _state: &mut State, _params: Json) -> HandlerOutcome {
        Err(HandlerError::Internal(String::from("backend unavailable")))
    }

    fn hover(&mut self, _state: &mut State, _params: Json) -> HandlerOutcome {
        Err(HandlerError::InvalidParams(String::from(
            "expected a text document position",
        )))
    }

    fn did_open_text_document(&mut self, _state: &mut State, _params: Json) {}

    fn did_change_text_document(&mut self, _state: &mut State, _params: Json) {}

    fn did_save_text_document(&mut self, _state: &mut State, _params: Json) {}

    fn did_change_configuration(&mut self, _state: &mut State, _params: Json) {}
}

#[test]
fn undecodable_params_get_invalid_params() {
    let (_tx_in, rx_in) = flume::unbounded::<Message>();
    let (tx_out, rx_out) = flume::unbounded::<Message>();
    let mut server = Server::new(rx_in, State::new(tx_out), PickyHandlers);
    server.initialize_step(request(1, "initialize", Json::Null));
    let _ = expect_response(&rx_out);
    server.initialize_step(notification("initialized"));
    let mut initialized = server.into_initialized();

    assert!(initialized.run_step(request(4, "textDocument/hover", Json::Bool(true))));
    let resp = expect_response(&rx_out);
    assert_eq!(resp.id, RequestId::Num(4));
    assert!(resp.result.is_none());
    let err = resp.error.expect("a failed decode is answered with an error");
    assert_eq!(err.code, ErrorCode::InvalidParams);
    assert_eq!(err.code.code(), -32602);
    assert_eq!(err.message, "expected a text document position");
}

#[test]
fn failing_handler_gets_internal_error() {
    let (_tx_in, rx_in) = flume::unbounded::<Message>();
    let (tx_out, rx_out) = flume::unbounded::<Message>();
    let mut server = Server::new(rx_in, State::new(tx_out), PickyHandlers);
    server.initialize_step(request(1, "initialize", Json::Null));
    let _ = expect_response(&rx_out);
    server.initialize_step(notification("initialized"));
    let mut initialized = server.into_initialized();

    assert!(initialized.run_step(request(6, "textDocument/completion", Json::Null)));
    let resp = expect_response(&rx_out);
    assert_eq!(resp.id, RequestId::Num(6));
    let err = resp.error.expect("a failing handler is answered with an error");
    assert_eq!(err.code, ErrorCode::InternalError);
    assert_eq!(err.code.code(), -32603);
}

#[test]
fn exit_terminates_while_uninitialized() {
    let (mut server, _rx_out) = new_server();
    assert_eq!(server.initialize_step(notification("exit")), HandshakePhase::Closed);
}

#[test]
fn exit_terminates_without_prior_shutdown() {
    let (mut server, rx_out) = new_server();
    server.initialize_step(request(1, "initialize", Json::Null));
    let _ = expect_response(&rx_out);
    server.initialize_step(notification("initialized"));
    let mut initialized = server.into_initialized();
    assert!(!initialized.run_step(notification("exit")));
}

#[test]
fn exit_terminates_after_shutdown() {
    let (mut server, rx_out) = new_server();
    server.initialize_step(request(1, "initialize", Json::Null));
    let _ = expect_response(&rx_out);
    server.initialize_step(notification("initialized"));
    let mut initialized = server.into_initialized();
    assert!(initialized.run_step(request(2, "shutdown", Json::Null)));
    let _ = expect_response(&rx_out);
    assert!(!initialized.run_step(notification("exit")));
}

#[test]
fn registered_notifications_run_and_unregistered_ones_drop() {
    let (mut server, rx_out) = new_server();
    server.initialize_step(request(1, "initialize", Json::Null));
    let _ = expect_response(&rx_out);
    server.initialize_step(notification("initialized"));
    let mut initialized = server.into_initialized();
    assert!(initialized.run_step(notification("textDocument/didOpen")));
    assert!(initialized.run_step(notification("textDocument/didChange")));
    assert!(initialized.run_step(notification("textDocument/didSave")));
    assert!(initialized.run_step(notification("workspace/didChangeConfiguration")));
    assert!(initialized.run_step(notification("telemetry/event")));
    // Notifications are never answered, routed or not.
    assert!(rx_out.try_recv().is_err());
}

#[test]
fn full_session_yields_three_responses_and_terminates() {
    let (mut server, rx_out) = new_server();

    assert_eq!(
        server.initialize_step(request(1, "initialize", Json::Obj(Vec::new()))),
        HandshakePhase::Waiting
    );
    assert_eq!(
        server.initialize_step(notification("initialized")),
        HandshakePhase::Complete
    );
    let mut initialized = server.into_initialized();
    assert!(initialized.run_step(request(2, "textDocument/hover", Json::Obj(Vec::new()))));
    assert!(initialized.run_step(request(3, "shutdown", Json::Null)));
    assert!(!initialized.run_step(notification("exit")));
    drop(initialized);

    let first = expect_response(&rx_out);
    assert_eq!(first.id, RequestId::Num(1));
    assert!(first.result.is_some() && first.error.is_none());
    let second = expect_response(&rx_out);
    assert_eq!(second.id, RequestId::Num(2));
    assert!(second.result.is_some() && second.error.is_none());
    let third = expect_response(&rx_out);
    assert_eq!(third.id, RequestId::Num(3));
    assert!(third.result.is_some() && third.error.is_none());
    // A clean termination leaves nothing pending on the outbound queue.
    assert!(rx_out.try_recv().is_err());
}

#[test]
fn session_driver_stops_on_exit_and_answers_everything() {
    let (server, rx_out) = new_server();
    let inbox = vec![
        request(1, "initialize", Json::Obj(Vec::new())),
        notification("initialized"),
        request(2, "textDocument/hover", Json::Null),
        request(3, "shutdown", Json::Null),
        notification("exit"),
        request(4, "textDocument/hover", Json::Null),
    ];
    assert!(helios_ls::server::__start(server, inbox));
    // Everything up to `exit` was answered; nothing after it was.
    assert_eq!(expect_response(&rx_out).id, RequestId::Num(1));
    assert_eq!(expect_response(&rx_out).id, RequestId::Num(2));
    assert_eq!(expect_response(&rx_out).id, RequestId::Num(3));
    assert!(rx_out.try_recv().is_err());
}

#[test]
fn session_driver_without_exit_runs_the_queue_dry() {
    let (server, rx_out) = new_server();
    let inbox = vec![
        request(1, "initialize", Json::Null),
        notification("initialized"),
        request(2, "shutdown", Json::Null),
    ];
    assert!(!helios_ls::server::__start(server, inbox));
    assert_eq!(expect_response(&rx_out).id, RequestId::Num(1));
    assert_eq!(expect_response(&rx_out).id, RequestId::Num(2));
    assert!(rx_out.try_recv().is_err());
}

#[test]
fn string_ids_are_echoed_verbatim() {
    let (mut server, rx_out) = new_server();
    let msg = Message::Request(Request {
        id: RequestId::Text(String::from("alpha-7")),
        method: String::from("shutdown"),
        params: Json::Null,
    });
    server.initialize_step(request(1, "initialize", Json::Null));
    let _ = expect_response(&rx_out);
    server.initialize_step(notification("initialized"));
    let mut initialized = server.into_initialized();
    assert!(initialized.run_step(msg));
    let resp = expect_response(&rx_out);
    assert_eq!(resp.id, RequestId::Text(String::from("alpha-7")));
}
