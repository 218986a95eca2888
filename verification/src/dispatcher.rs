//! Request and notification dispatch: an ordered chain of registrations,
//! first match wins, and exactly one response per request.

use vstd::prelude::*;
use vstd::string::StringExecFns;

use crate::protocol::{ErrorCode, Json, Notification, Request, RequestId, Response, ResponseError, method_is};

verus! {

/// How a handler's work on one request failed; the dispatcher turns
/// each case into the matching error response.
#[derive(Debug)]
pub enum HandlerError {
    /// The params did not decode into the handler's expected shape.
    InvalidParams(String),
    /// The handler itself failed.
    Internal(String),
}

/// What a request handler hands back: a result payload or a failure.
pub type HandlerOutcome = Result<Json, HandlerError>;

/// The one response owed for `id`, given how the handler ended.
pub open spec fn spec_response_for(id: RequestId, outcome: HandlerOutcome) -> Response {
    match outcome {
        Ok(v) => Response { id, result: Some(v), error: None },
        Err(HandlerError::InvalidParams(m)) => Response {
            id,
            result: None,
            error: Some(ResponseError { code: ErrorCode::InvalidParams, message: m }),
        },
        Err(HandlerError::Internal(m)) => Response {
            id,
            result: None,
            error: Some(ResponseError { code: ErrorCode::InternalError, message: m }),
        },
    }
}

/// Turns a handler outcome into the response owed for the request: the
/// id is echoed verbatim; a params-decode failure answers InvalidParams;
/// any other handler failure answers InternalError.
pub fn response_for(id: RequestId, outcome: HandlerOutcome) -> (r: Response)
    ensures
        r == spec_response_for(id, outcome),
        r.id == id,
        r.wf(),
{
    match outcome {
        Ok(v) => Response::new_ok(id, v),
        Err(HandlerError::InvalidParams(m)) => Response::new_error(id, ErrorCode::InvalidParams, m),
        Err(HandlerError::Internal(m)) => Response::new_error(id, ErrorCode::InternalError, m),
    }
}

/// Law: whatever a handler ends in, the response echoes the request's
/// id and carries exactly one of result and error; a params-decode
/// failure is answered with the InvalidParams code and its message, a
/// handler failure with InternalError, and a result as that result.
pub proof fn lemma_outcome_response(id: RequestId, outcome: HandlerOutcome)
    ensures
        spec_response_for(id, outcome).id == id,
        spec_response_for(id, outcome).wf(),
        outcome matches Err(HandlerError::InvalidParams(m)) ==> ({
            &&& spec_response_for(id, outcome).error matches Some(e)
            &&& e.code == ErrorCode::InvalidParams
            &&& e.message == m
        }),
        outcome matches Err(HandlerError::Internal(m)) ==> ({
            &&& spec_response_for(id, outcome).error matches Some(e)
            &&& e.code == ErrorCode::InternalError
            &&& e.message == m
        }),
        outcome matches Ok(v) ==> spec_response_for(id, outcome).result == Some(v)
            && spec_response_for(id, outcome).error is None,
{
}

/// The message of the MethodNotFound response for a method nobody
/// registered.
pub open spec fn method_not_found_message(m: Seq<char>) -> Seq<char> {
    "method not found: "@ + m
}

/// The response owed for a request whose method nobody registered.
pub open spec fn is_method_not_found(req: Request, r: Response) -> bool {
    &&& r.id == req.id
    &&& r.result is None
    &&& r.error matches Some(e)
    &&& e.code == ErrorCode::MethodNotFound
    &&& e.message@ == method_not_found_message(req.method@)
}

/// Builds the MethodNotFound response for an unrouted request, echoing
/// its id and naming the method.
pub fn method_not_found(req: Request) -> (r: Response)
    ensures
        is_method_not_found(req, r),
        r.wf(),
{
    let mut msg = "method not found: ".to_owned();
    msg.append(req.method.as_str());
    Response::new_error(req.id, ErrorCode::MethodNotFound, msg)
}

/// Routes one request through an ordered chain of registrations. Each
/// `claim`, in registration order, checks whether the request's method
/// matches; the first match takes the request and marks it handled, so
/// no later registration sees it. `finish` answers for a request nobody
/// claimed.
pub struct RequestDispatcher {
    pub pending: Option<Request>,
}

impl RequestDispatcher {
    /// Starts the chain with the request still unclaimed.
    pub fn new(req: Request) -> (d: RequestDispatcher)
        ensures
            d.pending == Some(req),
    {
        RequestDispatcher { pending: Some(req) }
    }

    /// Hands the request out exactly when it is still unclaimed and its
    /// method is `method`; the request is then marked handled.
    pub fn claim(&mut self, method: &str) -> (c: Option<Request>)
        ensures
            match old(self).pending {
                Some(r) => if r.method@ == method@ {
                    c == Some(r) && final(self).pending is None
                } else {
                    c is None && final(self).pending == old(self).pending
                },
                None => c is None && final(self).pending is None,
            },
    {
        let hit = match &self.pending {
            Some(r) => method_is(&r.method, method),
            None => false,
        };
        if hit {
            self.pending.take()
        } else {
            None
        }
    }

    /// Ends the chain: a request nobody claimed is answered with
    /// MethodNotFound, its id echoed; a claimed one needs nothing more.
    pub fn finish(self) -> (r: Option<Response>)
        ensures
            match self.pending {
                Some(req) => r matches Some(resp) && is_method_not_found(req, resp) && resp.wf(),
                None => r is None,
            },
    {
        match self.pending {
            Some(req) => Some(method_not_found(req)),
            None => None,
        }
    }
}

/// The notification counterpart of [`RequestDispatcher`]: same ordered,
/// first-match-wins chain, but an unclaimed notification is simply
/// dropped at the end — there is no response channel for notifications.
pub struct NotificationDispatcher {
    pub pending: Option<Notification>,
}

impl NotificationDispatcher {
    /// Starts the chain with the notification still unclaimed.
    pub fn new(not: Notification) -> (d: NotificationDispatcher)
        ensures
            d.pending == Some(not),
    {
        NotificationDispatcher { pending: Some(not) }
    }

    /// Hands the notification out exactly when it is still unclaimed and
    /// its method is `method`.
    pub fn claim(&mut self, method: &str) -> (c: Option<Notification>)
        ensures
            match old(self).pending {
                Some(n) => if n.method@ == method@ {
                    c == Some(n) && final(self).pending is None
                } else {
                    c is None && final(self).pending == old(self).pending
                },
                None => c is None && final(self).pending is None,
            },
    {
        let hit = match &self.pending {
            Some(n) => method_is(&n.method, method),
            None => false,
        };
        if hit {
            self.pending.take()
        } else {
            None
        }
    }

    /// Ends the chain; reports whether the notification was dropped
    /// unhandled.
    pub fn finish(self) -> (dropped: bool)
        ensures
            dropped == (self.pending is Some),
    {
        match self.pending {
            Some(_) => true,
            None => false,
        }
    }
}

} // verus!
