//! The protocol's message model: structured payload values, requests,
//! notifications, responses, identifiers, and the standard error codes.

use vstd::prelude::*;

verus! {

/// A structured payload value of the wire protocol: the textual encoding
/// carries exactly these shapes. Payloads handed to handlers and results
/// handed back are values of this type; the core never inspects them
/// beyond the envelope fields.
#[derive(Debug, PartialEq)]
pub enum Json {
    Null,
    Bool(bool),
    Int(i64),
    Str(String),
    Arr(Vec<Json>),
    Obj(Vec<(String, Json)>),
}

/// A request identifier: an integer or a string, echoed verbatim in the
/// response to that request.
#[derive(Debug, PartialEq)]
pub enum RequestId {
    Num(i64),
    Text(String),
}

impl Clone for RequestId {
    /// Cloning keeps the identifier's value, so a response built from the
    /// clone still echoes the original id.
    fn clone(&self) -> (r: Self)
        ensures
            r == *self,
    {
        match self {
            RequestId::Num(n) => RequestId::Num(*n),
            RequestId::Text(s) => RequestId::Text(s.clone()),
        }
    }
}

/// A protocol message requiring exactly one response, identified by `id`.
#[derive(Debug, PartialEq)]
pub struct Request {
    pub id: RequestId,
    pub method: String,
    pub params: Json,
}

/// A protocol message with no id; it is never answered.
#[derive(Debug, PartialEq)]
pub struct Notification {
    pub method: String,
    pub params: Json,
}

/// The enumerated error codes of the protocol, each a fixed integer on
/// the wire.
#[derive(Clone, Copy, PartialEq, Eq, Structural, Debug)]
pub enum ErrorCode {
    ParseError,
    InvalidRequest,
    MethodNotFound,
    InvalidParams,
    InternalError,
    ServerNotInitialized,
}

/// The wire integer of each error code.
pub open spec fn spec_code(c: ErrorCode) -> i64 {
    match c {
        ErrorCode::ParseError => -32700i64,
        ErrorCode::InvalidRequest => -32600i64,
        ErrorCode::MethodNotFound => -32601i64,
        ErrorCode::InvalidParams => -32602i64,
        ErrorCode::InternalError => -32603i64,
        ErrorCode::ServerNotInitialized => -32002i64,
    }
}

/// The human-readable description paired with each error code.
pub open spec fn spec_description(c: ErrorCode) -> Seq<char> {
    match c {
        ErrorCode::ParseError => "parse error"@,
        ErrorCode::InvalidRequest => "invalid request"@,
        ErrorCode::MethodNotFound => "method not found"@,
        ErrorCode::InvalidParams => "invalid params"@,
        ErrorCode::InternalError => "internal error"@,
        ErrorCode::ServerNotInitialized => "server not initialized"@,
    }
}

impl ErrorCode {
    /// The human-readable description paired with this code.
    pub fn description(&self) -> (r: &'static str)
        ensures
            r@ == spec_description(*self),
    {
        match self {
            ErrorCode::ParseError => "parse error",
            ErrorCode::InvalidRequest => "invalid request",
            ErrorCode::MethodNotFound => "method not found",
            ErrorCode::InvalidParams => "invalid params",
            ErrorCode::InternalError => "internal error",
            ErrorCode::ServerNotInitialized => "server not initialized",
        }
    }

    /// The integer sent on the wire for this code.
    pub fn code(&self) -> (r: i64)
        ensures
            r == spec_code(*self),
    {
        match self {
            ErrorCode::ParseError => -32700,
            ErrorCode::InvalidRequest => -32600,
            ErrorCode::MethodNotFound => -32601,
            ErrorCode::InvalidParams => -32602,
            ErrorCode::InternalError => -32603,
            ErrorCode::ServerNotInitialized => -32002,
        }
    }
}

/// The error half of a response: a code and a human-readable message.
#[derive(Debug, PartialEq)]
pub struct ResponseError {
    pub code: ErrorCode,
    pub message: String,
}

/// An id-correlated reply carrying either a result or an error, never
/// both and never neither.
#[derive(Debug, PartialEq)]
pub struct Response {
    pub id: RequestId,
    pub result: Option<Json>,
    pub error: Option<ResponseError>,
}

impl Response {
    /// A response holds exactly one of `result` and `error`.
    pub open spec fn wf(&self) -> bool {
        self.result is Some <==> self.error is None
    }

    /// Builds the success response for the request `id`.
    pub fn new_ok(id: RequestId, result: Json) -> (r: Response)
        ensures
            r == (Response { id, result: Some(result), error: None }),
            r.wf(),
    {
        Response { id, result: Some(result), error: None }
    }

    /// Builds the failure response for the request `id`.
    pub fn new_error(id: RequestId, code: ErrorCode, message: String) -> (r: Response)
        ensures
            r == (Response { id, result: None, error: Some(ResponseError { code, message }) }),
            r.wf(),
    {
        Response { id, result: None, error: Some(ResponseError { code, message }) }
    }
}

/// The message union carried over the transport.
#[derive(Debug, PartialEq)]
pub enum Message {
    Request(Request),
    Notification(Notification),
    Response(Response),
}

/// True when an incoming `method` field names the given method.
pub fn method_is(method: &String, name: &str) -> (r: bool)
    ensures
        r == (method@ == name@),
{
    *method == name.to_owned()
}

impl Request {
    /// True for the handshake's opening request.
    pub fn is_initialize(&self) -> (r: bool)
        ensures
            r == (self.method@ == "initialize"@),
    {
        method_is(&self.method, "initialize")
    }
}

impl Notification {
    /// True for the handshake's completing notification.
    pub fn is_initialized(&self) -> (r: bool)
        ensures
            r == (self.method@ == "initialized"@),
    {
        method_is(&self.method, "initialized")
    }

    /// True for the notification that unconditionally ends the main loop.
    pub fn is_exit(&self) -> (r: bool)
        ensures
            r == (self.method@ == "exit"@),
    {
        method_is(&self.method, "exit")
    }
}

} // verus!
