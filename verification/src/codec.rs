//! The envelope codec: between `Message` values and the structured payload
//! shape carried on the wire, with fields `id`, `method`, `params`,
//! `result` and `error`. Field order is irrelevant on the way in; the
//! encoder emits one fixed order.

use vstd::prelude::*;
use vstd::pervasive::unreached;

use crate::protocol::{
    ErrorCode, Json, Message, Notification, Request, RequestId, Response, ResponseError,
    method_is, spec_code,
};

verus! {

/// Why a payload failed to decode into a message.
#[derive(Clone, Copy, PartialEq, Eq, Structural, Debug)]
pub enum DecodeError {
    /// The payload is not an object.
    NotAnObject,
    /// The `method` field is present but not a string.
    BadMethod,
    /// The `id` field is present but neither an integer nor a string.
    BadId,
    /// The object has neither a `method` field nor a response payload.
    BadShape,
    /// The `error` field of a response is not a well-formed error object.
    BadErrorObject,
}

/// First-match lookup of `key` among an object's fields.
pub open spec fn lookup(fields: Seq<(String, Json)>, key: Seq<char>) -> Option<Json>
    decreases fields.len(),
{
    if fields.len() == 0 {
        None
    } else if fields[0].0@ == key {
        Some(fields[0].1)
    } else {
        lookup(fields.drop_first(), key)
    }
}

/// The payload value of a request identifier.
pub open spec fn spec_id_json(id: RequestId) -> Json {
    match id {
        RequestId::Num(n) => Json::Int(n),
        RequestId::Text(s) => Json::Str(s),
    }
}

/// The identifier denoted by a payload value, if any.
pub open spec fn spec_json_id(j: Json) -> Option<RequestId> {
    match j {
        Json::Int(n) => Some(RequestId::Num(n)),
        Json::Str(s) => Some(RequestId::Text(s)),
        _ => None,
    }
}

/// The error code denoted by a wire integer, if it is one of the
/// enumerated codes.
pub open spec fn spec_code_of(n: i64) -> Option<ErrorCode> {
    if n == -32700 {
        Some(ErrorCode::ParseError)
    } else if n == -32600 {
        Some(ErrorCode::InvalidRequest)
    } else if n == -32601 {
        Some(ErrorCode::MethodNotFound)
    } else if n == -32602 {
        Some(ErrorCode::InvalidParams)
    } else if n == -32603 {
        Some(ErrorCode::InternalError)
    } else if n == -32002 {
        Some(ErrorCode::ServerNotInitialized)
    } else {
        None
    }
}

/// The `params` field of an object, or null where the field is absent.
pub open spec fn spec_params_of(fields: Seq<(String, Json)>) -> Json {
    match lookup(fields, "params"@) {
        Some(p) => p,
        None => Json::Null,
    }
}

/// The exact shape the encoder gives a request: an object with the
/// fields `id`, `method` and `params`, in that order and nothing else.
pub open spec fn request_encoded(r: Request, j: Json) -> bool {
    &&& j matches Json::Obj(f)
    &&& f@.len() == 3
    &&& f@[0].0@ == "id"@ && f@[0].1 == spec_id_json(r.id)
    &&& f@[1].0@ == "method"@ && f@[1].1 == Json::Str(r.method)
    &&& f@[2].0@ == "params"@ && f@[2].1 == r.params
}

/// The exact shape the encoder gives a notification: an object with the
/// fields `method` and `params` and no `id`.
pub open spec fn notification_encoded(n: Notification, j: Json) -> bool {
    &&& j matches Json::Obj(f)
    &&& f@.len() == 2
    &&& f@[0].0@ == "method"@ && f@[0].1 == Json::Str(n.method)
    &&& f@[1].0@ == "params"@ && f@[1].1 == n.params
}

/// The exact shape the encoder gives a response: the echoed `id`, then
/// either a `result` field or an `error` object with `code` and
/// `message`, never both.
pub open spec fn response_encoded(r: Response, j: Json) -> bool {
    &&& j matches Json::Obj(f)
    &&& f@.len() == 2
    &&& f@[0].0@ == "id"@ && f@[0].1 == spec_id_json(r.id)
    &&& match r.error {
        None => {
            &&& r.result matches Some(v)
            &&& f@[1].0@ == "result"@ && f@[1].1 == v
        },
        Some(e) => {
            &&& r.result is None
            &&& f@[1].0@ == "error"@
            &&& f@[1].1 matches Json::Obj(ef)
            &&& ef@.len() == 2
            &&& ef@[0].0@ == "code"@ && ef@[0].1 == Json::Int(spec_code(e.code))
            &&& ef@[1].0@ == "message"@ && ef@[1].1 == Json::Str(e.message)
        },
    }
}

/// A message is fit for the wire when a response in it carries exactly
/// one of result and error.
pub open spec fn message_wf(m: Message) -> bool {
    m matches Message::Response(r) ==> r.wf()
}

/// The encoder's obligation for each arm of the union.
pub open spec fn message_encoded(m: Message, j: Json) -> bool {
    match m {
        Message::Request(r) => request_encoded(r, j),
        Message::Notification(n) => notification_encoded(n, j),
        Message::Response(r) => response_encoded(r, j),
    }
}

fn id_to_json(id: RequestId) -> (j: Json)
    ensures
        j == spec_id_json(id),
{
    match id {
        RequestId::Num(n) => Json::Int(n),
        RequestId::Text(s) => Json::Str(s),
    }
}

fn json_to_id(j: Json) -> (r: Option<RequestId>)
    ensures
        r == spec_json_id(j),
{
    match j {
        Json::Int(n) => Some(RequestId::Num(n)),
        Json::Str(s) => Some(RequestId::Text(s)),
        _ => None,
    }
}

fn code_of(n: i64) -> (r: Option<ErrorCode>)
    ensures
        r == spec_code_of(n),
{
    if n == -32700 {
        Some(ErrorCode::ParseError)
    } else if n == -32600 {
        Some(ErrorCode::InvalidRequest)
    } else if n == -32601 {
        Some(ErrorCode::MethodNotFound)
    } else if n == -32602 {
        Some(ErrorCode::InvalidParams)
    } else if n == -32603 {
        Some(ErrorCode::InternalError)
    } else if n == -32002 {
        Some(ErrorCode::ServerNotInitialized)
    } else {
        None
    }
}

/// Encodes a request as its wire object.
pub fn request_to_json(r: Request) -> (j: Json)
    ensures
        request_encoded(r, j),
{
    let mut f: Vec<(String, Json)> = Vec::new();
    f.push(("id".to_owned(), id_to_json(r.id)));
    f.push(("method".to_owned(), Json::Str(r.method)));
    f.push(("params".to_owned(), r.params));
    Json::Obj(f)
}

/// Encodes a notification as its wire object; it carries no `id`.
pub fn notification_to_json(n: Notification) -> (j: Json)
    ensures
        notification_encoded(n, j),
{
    let mut f: Vec<(String, Json)> = Vec::new();
    f.push(("method".to_owned(), Json::Str(n.method)));
    f.push(("params".to_owned(), n.params));
    Json::Obj(f)
}

/// Encodes a response as its wire object: the echoed id and exactly one
/// of a `result` field or an `error` object.
pub fn response_to_json(r: Response) -> (j: Json)
    requires
        r.wf(),
    ensures
        response_encoded(r, j),
{
    let Response { id, result, error } = r;
    let mut f: Vec<(String, Json)> = Vec::new();
    f.push(("id".to_owned(), id_to_json(id)));
    match (result, error) {
        (Some(v), None) => {
            f.push(("result".to_owned(), v));
        },
        (None, Some(e)) => {
            let mut ef: Vec<(String, Json)> = Vec::new();
            ef.push(("code".to_owned(), Json::Int(e.code.code())));
            ef.push(("message".to_owned(), Json::Str(e.message)));
            f.push(("error".to_owned(), Json::Obj(ef)));
        },
        (Some(_), Some(_)) => unreached(),
        (None, None) => unreached(),
    }
    Json::Obj(f)
}

/// Encodes any message as its wire object.
pub fn message_to_json(m: Message) -> (j: Json)
    requires
        message_wf(m),
    ensures
        message_encoded(m, j),
{
    match m {
        Message::Request(r) => request_to_json(r),
        Message::Notification(n) => notification_to_json(n),
        Message::Response(r) => response_to_json(r),
    }
}

/// What a wire object with no `method` field decodes to: a response, or
/// an error naming what is malformed.
pub open spec fn spec_decode_response(f: Seq<(String, Json)>) -> Result<Message, DecodeError> {
    match lookup(f, "id"@) {
        Some(idj) => match spec_json_id(idj) {
            Some(id) => match lookup(f, "result"@) {
                Some(v) => Ok(Message::Response(Response { id, result: Some(v), error: None })),
                None => match lookup(f, "error"@) {
                    Some(ej) => match ej {
                        Json::Obj(ef) => match (lookup(ef@, "code"@), lookup(ef@, "message"@)) {
                            (Some(Json::Int(c)), Some(Json::Str(msg))) => match spec_code_of(c) {
                                Some(code) => Ok(Message::Response(Response {
                                    id,
                                    result: None,
                                    error: Some(ResponseError { code, message: msg }),
                                })),
                                None => Err(DecodeError::BadErrorObject),
                            },
                            _ => Err(DecodeError::BadErrorObject),
                        },
                        _ => Err(DecodeError::BadErrorObject),
                    },
                    None => Err(DecodeError::BadShape),
                },
            },
            None => Err(DecodeError::BadId),
        },
        None => Err(DecodeError::BadShape),
    }
}

/// What a wire object decodes to: a request where `method` and `id` are
/// present, a notification where only `method` is, a response otherwise.
/// Unknown fields are ignored; a missing `params` field reads as null.
pub open spec fn spec_decode_obj(f: Seq<(String, Json)>) -> Result<Message, DecodeError> {
    match lookup(f, "method"@) {
        Some(mj) => match mj {
            Json::Str(m) => match lookup(f, "id"@) {
                Some(idj) => match spec_json_id(idj) {
                    Some(id) => Ok(Message::Request(Request {
                        id,
                        method: m,
                        params: spec_params_of(f),
                    })),
                    None => Err(DecodeError::BadId),
                },
                None => Ok(Message::Notification(Notification {
                    method: m,
                    params: spec_params_of(f),
                })),
            },
            _ => Err(DecodeError::BadMethod),
        },
        None => spec_decode_response(f),
    }
}

/// What any payload decodes to.
pub open spec fn spec_decode(j: Json) -> Result<Message, DecodeError> {
    match j {
        Json::Obj(f) => spec_decode_obj(f@),
        _ => Err(DecodeError::NotAnObject),
    }
}

proof fn lemma_lookup_step(s: Seq<(String, Json)>, i: int, key: Seq<char>)
    requires
        0 <= i < s.len(),
    ensures
        lookup(s.skip(i), key) == if s[i].0@ == key {
            Some(s[i].1)
        } else {
            lookup(s.skip(i + 1), key)
        },
{
    assert(s.skip(i).len() > 0);
    assert(s.skip(i)[0] == s[i]);
    assert(s.skip(i).drop_first() =~= s.skip(i + 1));
}

/// Walks an object's fields once and hands back the first value of each
/// envelope key.
fn split_fields(fields: Vec<(String, Json)>) -> (r: (
    Option<Json>,
    Option<Json>,
    Option<Json>,
    Option<Json>,
    Option<Json>,
))
    ensures
        r.0 == lookup(fields@, "method"@),
        r.1 == lookup(fields@, "id"@),
        r.2 == lookup(fields@, "params"@),
        r.3 == lookup(fields@, "result"@),
        r.4 == lookup(fields@, "error"@),
{
    let ghost all = fields@;
    let mut rest = fields;
    let mut method_f: Option<Json> = None;
    let mut id_f: Option<Json> = None;
    let mut params_f: Option<Json> = None;
    let mut result_f: Option<Json> = None;
    let mut error_f: Option<Json> = None;
    proof {
        assert(all.take(all.len() as int) =~= all);
        assert(all.skip(all.len() as int) =~= Seq::<(String, Json)>::empty());
    }
    while rest.len() > 0
        invariant
            rest@.len() <= all.len(),
            rest@ == all.take(rest@.len() as int),
            method_f == lookup(all.skip(rest@.len() as int), "method"@),
            id_f == lookup(all.skip(rest@.len() as int), "id"@),
            params_f == lookup(all.skip(rest@.len() as int), "params"@),
            result_f == lookup(all.skip(rest@.len() as int), "result"@),
            error_f == lookup(all.skip(rest@.len() as int), "error"@),
        decreases rest@.len(),
    {
        let ghost n = rest@.len() as int;
        let popped = rest.pop();
        match popped {
            Some((k, v)) => {
                proof {
                    assert(all.take(n).drop_last() =~= all.take(n - 1));
                    assert(all.take(n).last() == all[n - 1]);
                    lemma_lookup_step(all, n - 1, "method"@);
                    lemma_lookup_step(all, n - 1, "id"@);
                    lemma_lookup_step(all, n - 1, "params"@);
                    lemma_lookup_step(all, n - 1, "result"@);
                    lemma_lookup_step(all, n - 1, "error"@);
                    reveal_strlit("method");
                    reveal_strlit("id");
                    reveal_strlit("params");
                    reveal_strlit("result");
                    reveal_strlit("error");
                    assert("method"@.len() == 6 && "id"@.len() == 2 && "params"@.len() == 6
                        && "result"@.len() == 6 && "error"@.len() == 5);
                    assert("method"@[0] == 'm' && "params"@[0] == 'p' && "result"@[0] == 'r');
                    assert("method"@ != "id"@ && "method"@ != "params"@ && "method"@
                        != "result"@ && "method"@ != "error"@);
                    assert("id"@ != "params"@ && "id"@ != "result"@ && "id"@ != "error"@);
                    assert("params"@ != "result"@ && "params"@ != "error"@);
                    assert("result"@ != "error"@);
                }
                if method_is(&k, "method") {
                    method_f = Some(v);
                } else if method_is(&k, "id") {
                    id_f = Some(v);
                } else if method_is(&k, "params") {
                    params_f = Some(v);
                } else if method_is(&k, "result") {
                    result_f = Some(v);
                } else if method_is(&k, "error") {
                    error_f = Some(v);
                }
            },
            None => {
                proof {
                    assert(false);
                }
            },
        }
    }
    proof {
        assert(all.skip(0) =~= all);
    }
    (method_f, id_f, params_f, result_f, error_f)
}

fn params_or_null(p: Option<Json>) -> (r: Json)
    ensures
        p matches Some(v) ==> r == v,
        p is None ==> r == Json::Null,
{
    match p {
        Some(v) => v,
        None => Json::Null,
    }
}

/// Walks an error object's fields once for `code` and `message`.
fn split_error_fields(fields: Vec<(String, Json)>) -> (r: (Option<Json>, Option<Json>))
    ensures
        r.0 == lookup(fields@, "code"@),
        r.1 == lookup(fields@, "message"@),
{
    let ghost all = fields@;
    let mut rest = fields;
    let mut code_f: Option<Json> = None;
    let mut msg_f: Option<Json> = None;
    proof {
        assert(all.take(all.len() as int) =~= all);
        assert(all.skip(all.len() as int) =~= Seq::<(String, Json)>::empty());
    }
    while rest.len() > 0
        invariant
            rest@.len() <= all.len(),
            rest@ == all.take(rest@.len() as int),
            code_f == lookup(all.skip(rest@.len() as int), "code"@),
            msg_f == lookup(all.skip(rest@.len() as int), "message"@),
        decreases rest@.len(),
    {
        let ghost n = rest@.len() as int;
        let popped = rest.pop();
        match popped {
            Some((k, v)) => {
                proof {
                    assert(all.take(n).drop_last() =~= all.take(n - 1));
                    assert(all.take(n).last() == all[n - 1]);
                    lemma_lookup_step(all, n - 1, "code"@);
                    lemma_lookup_step(all, n - 1, "message"@);
                    reveal_strlit("code");
                    reveal_strlit("message");
                    assert("code"@.len() == 4 && "message"@.len() == 7);
                    assert("code"@ != "message"@);
                }
                if method_is(&k, "code") {
                    code_f = Some(v);
                } else if method_is(&k, "message") {
                    msg_f = Some(v);
                }
            },
            None => {
                proof {
                    assert(false);
                }
            },
        }
    }
    proof {
        assert(all.skip(0) =~= all);
    }
    (code_f, msg_f)
}

/// Decodes a wire payload into a message, exactly as [`spec_decode`]
/// states.
pub fn json_to_message(j: Json) -> (r: Result<Message, DecodeError>)
    ensures
        r == spec_decode(j),
{
    match j {
        Json::Obj(fields) => {
            let (method_f, id_f, params_f, result_f, error_f) = split_fields(fields);
            match method_f {
                Some(mj) => match mj {
                    Json::Str(m) => match id_f {
                        Some(idj) => match json_to_id(idj) {
                            Some(id) => Ok(Message::Request(Request {
                                id,
                                method: m,
                                params: params_or_null(params_f),
                            })),
                            None => Err(DecodeError::BadId),
                        },
                        None => Ok(Message::Notification(Notification {
                            method: m,
                            params: params_or_null(params_f),
                        })),
                    },
                    _ => Err(DecodeError::BadMethod),
                },
                None => match id_f {
                    Some(idj) => match json_to_id(idj) {
                        Some(id) => match result_f {
                            Some(v) => Ok(Message::Response(Response {
                                id,
                                result: Some(v),
                                error: None,
                            })),
                            None => match error_f {
                                Some(ej) => decode_response_error(id, ej),
                                None => Err(DecodeError::BadShape),
                            },
                        },
                        None => Err(DecodeError::BadId),
                    },
                    None => Err(DecodeError::BadShape),
                },
            }
        },
        _ => Err(DecodeError::NotAnObject),
    }
}

fn decode_response_error(id: RequestId, ej: Json) -> (r: Result<Message, DecodeError>)
    ensures
        r == match ej {
            Json::Obj(ef) => match (lookup(ef@, "code"@), lookup(ef@, "message"@)) {
                (Some(Json::Int(c)), Some(Json::Str(msg))) => match spec_code_of(c) {
                    Some(code) => Ok::<Message, DecodeError>(Message::Response(Response {
                        id,
                        result: None,
                        error: Some(ResponseError { code, message: msg }),
                    })),
                    None => Err(DecodeError::BadErrorObject),
                },
                _ => Err(DecodeError::BadErrorObject),
            },
            _ => Err(DecodeError::BadErrorObject),
        },
{
    match ej {
        Json::Obj(ef) => {
            let (code_f, msg_f) = split_error_fields(ef);
            match (code_f, msg_f) {
                (Some(Json::Int(c)), Some(Json::Str(msg))) => match code_of(c) {
                    Some(code) => Ok(Message::Response(Response {
                        id,
                        result: None,
                        error: Some(ResponseError { code, message: msg }),
                    })),
                    None => Err(DecodeError::BadErrorObject),
                },
                _ => Err(DecodeError::BadErrorObject),
            }
        },
        _ => Err(DecodeError::BadErrorObject),
    }
}

proof fn lemma_code_of_code(c: ErrorCode)
    ensures
        spec_code_of(spec_code(c)) == Some(c),
{
}

proof fn lemma_key_facts()
    ensures
        "method"@ != "id"@ && "method"@ != "params"@ && "method"@ != "result"@ && "method"@
            != "error"@,
        "id"@ != "params"@ && "id"@ != "result"@ && "id"@ != "error"@,
        "params"@ != "result"@ && "params"@ != "error"@,
        "result"@ != "error"@,
        "code"@ != "message"@,
{
    reveal_strlit("method");
    reveal_strlit("id");
    reveal_strlit("params");
    reveal_strlit("result");
    reveal_strlit("error");
    reveal_strlit("code");
    reveal_strlit("message");
    assert("method"@.len() == 6 && "id"@.len() == 2 && "params"@.len() == 6 && "result"@.len()
        == 6 && "error"@.len() == 5);
    assert("method"@[0] == 'm' && "params"@[0] == 'p' && "result"@[0] == 'r');
    assert("code"@.len() == 4 && "message"@.len() == 7);
}

/// Law: every message the encoder emits decodes back to the very same
/// message, so nothing of a request's id, method or payload is lost on
/// the wire.
pub proof fn lemma_codec_round_trip(m: Message, j: Json)
    requires
        message_wf(m),
        message_encoded(m, j),
    ensures
        spec_decode(j) == Ok::<Message, DecodeError>(m),
{
    lemma_key_facts();
    match m {
        Message::Request(r) => {
            let f = j->Obj_0@;
            assert(f.skip(0) =~= f);
            lemma_lookup_step(f, 0, "method"@);
            lemma_lookup_step(f, 1, "method"@);
            assert(f.skip(1) =~= f.drop_first());
            assert(lookup(f, "method"@) == Some(Json::Str(r.method)));
            lemma_lookup_step(f, 0, "id"@);
            assert(lookup(f, "id"@) == Some(spec_id_json(r.id)));
            lemma_lookup_step(f, 0, "params"@);
            lemma_lookup_step(f, 1, "params"@);
            lemma_lookup_step(f, 2, "params"@);
            assert(lookup(f, "params"@) == Some(r.params));
            assert(spec_json_id(spec_id_json(r.id)) == Some(r.id));
        },
        Message::Notification(n) => {
            let f = j->Obj_0@;
            assert(f.skip(0) =~= f);
            lemma_lookup_step(f, 0, "method"@);
            assert(lookup(f, "method"@) == Some(Json::Str(n.method)));
            lemma_lookup_step(f, 0, "id"@);
            lemma_lookup_step(f, 1, "id"@);
            assert(f.skip(2) =~= Seq::<(String, Json)>::empty());
            assert(lookup(f, "id"@) is None);
            lemma_lookup_step(f, 0, "params"@);
            lemma_lookup_step(f, 1, "params"@);
            assert(lookup(f, "params"@) == Some(n.params));
        },
        Message::Response(r) => {
            let f = j->Obj_0@;
            assert(f.skip(0) =~= f);
            lemma_lookup_step(f, 0, "method"@);
            lemma_lookup_step(f, 1, "method"@);
            assert(f.skip(2) =~= Seq::<(String, Json)>::empty());
            assert(lookup(f, "method"@) is None);
            lemma_lookup_step(f, 0, "id"@);
            assert(lookup(f, "id"@) == Some(spec_id_json(r.id)));
            assert(spec_json_id(spec_id_json(r.id)) == Some(r.id));
            lemma_lookup_step(f, 0, "result"@);
            lemma_lookup_step(f, 1, "result"@);
            lemma_lookup_step(f, 0, "error"@);
            lemma_lookup_step(f, 1, "error"@);
            match r.error {
                None => {
                    assert(lookup(f, "result"@) == Some(r.result->0));
                },
                Some(e) => {
                    assert(lookup(f, "result"@) is None);
                    let ef = f[1].1->Obj_0@;
                    assert(ef.skip(0) =~= ef);
                    lemma_lookup_step(ef, 0, "code"@);
                    lemma_lookup_step(ef, 1, "code"@);
                    assert(lookup(ef, "code"@) == Some(Json::Int(spec_code(e.code))));
                    lemma_lookup_step(ef, 0, "message"@);
                    lemma_lookup_step(ef, 1, "message"@);
                    assert(lookup(ef, "message"@) == Some(Json::Str(e.message)));
                    lemma_code_of_code(e.code);
                },
            }
        },
    }
}

/// Law: on the wire a success response carries the request's id and its
/// result and no error field; a failure response carries the id and an
/// error object with the code and message and no result field.
pub proof fn lemma_response_wire_shape(r: Response, j: Json)
    requires
        r.wf(),
        response_encoded(r, j),
    ensures
        j matches Json::Obj(f) && lookup(f@, "id"@) == Some(spec_id_json(r.id)),
        r.result matches Some(v) ==> ({
            &&& j matches Json::Obj(f)
            &&& lookup(f@, "result"@) == Some(v)
            &&& lookup(f@, "error"@) is None
        }),
        r.error matches Some(e) ==> ({
            &&& j matches Json::Obj(f)
            &&& lookup(f@, "result"@) is None
            &&& lookup(f@, "error"@) matches Some(ej)
            &&& ej matches Json::Obj(ef)
            &&& lookup(ef@, "code"@) == Some(Json::Int(spec_code(e.code)))
            &&& lookup(ef@, "message"@) == Some(Json::Str(e.message))
        }),
{
    lemma_key_facts();
    let f = j->Obj_0@;
    assert(f.skip(0) =~= f);
    assert(f.skip(2) =~= Seq::<(String, Json)>::empty());
    lemma_lookup_step(f, 0, "id"@);
    lemma_lookup_step(f, 0, "result"@);
    lemma_lookup_step(f, 1, "result"@);
    lemma_lookup_step(f, 0, "error"@);
    lemma_lookup_step(f, 1, "error"@);
    match r.error {
        None => {
        },
        Some(e) => {
            let ef = f[1].1->Obj_0@;
            assert(ef.skip(0) =~= ef);
            lemma_lookup_step(ef, 0, "code"@);
            lemma_lookup_step(ef, 0, "message"@);
            lemma_lookup_step(ef, 1, "message"@);
        },
    }
}

} // verus!
