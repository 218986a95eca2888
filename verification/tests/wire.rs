//! The envelope codec and the byte-stream framing, held against the
//! wire format.

use helios_ls::codec::{json_to_message, message_to_json, DecodeError};
use helios_ls::framing::{encode_frame, parse_content_length};
use helios_ls::protocol::{
    ErrorCode, Json, Message, Notification, Request, RequestId, Response,
};

fn obj(fields: Vec<(&str, Json)>) -> Json {
    Json::Obj(fields.into_iter().map(|(k, v)| (String::from(k), v)).collect())
}

#[test]
fn ok_response_serializes_with_result_and_no_error() {
    let payload = obj(vec![("items", Json::Arr(vec![Json::Int(1), Json::Int(2)]))]);
    let resp = Response::new_ok(RequestId::Num(7), payload);
    let j = helios_ls::codec::response_to_json(resp);
    let expected_payload = obj(vec![("items", Json::Arr(vec![Json::Int(1), Json::Int(2)]))]);
    assert_eq!(
        j,
        obj(vec![("id", Json::Int(7)), ("result", expected_payload)])
    );
}

#[test]
fn error_response_serializes_with_error_and_no_result() {
    let resp = Response::new_error(
        RequestId::Num(7),
        ErrorCode::MethodNotFound,
        String::from("no such method"),
    );
    let j = helios_ls::codec::response_to_json(resp);
    assert_eq!(
        j,
        obj(vec![
            ("id", Json::Int(7)),
            (
                "error",
                obj(vec![
                    ("code", Json::Int(-32601)),
                    ("message", Json::Str(String::from("no such method"))),
                ])
            ),
        ])
    );
}

#[test]
fn request_round_trips_through_the_codec() {
    let m = Message::Request(Request {
        id: RequestId::Text(String::from("r-1")),
        method: String::from("textDocument/hover"),
        params: obj(vec![("line", Json::Int(3))]),
    });
    let expected = Message::Request(Request {
        id: RequestId::Text(String::from("r-1")),
        method: String::from("textDocument/hover"),
        params: obj(vec![("line", Json::Int(3))]),
    });
    assert_eq!(json_to_message(message_to_json(m)), Ok(expected));
}

#[test]
fn notification_round_trips_without_an_id() {
    let m = Message::Notification(Notification {
        method: String::from("exit"),
        params: Json::Null,
    });
    let j = message_to_json(m);
    match &j {
        Json::Obj(fields) => {
            assert!(fields.iter().all(|(k, _)| k != "id"));
        },
        other => panic!("the envelope must be an object, got {:?}", other),
    }
    let expected = Message::Notification(Notification {
        method: String::from("exit"),
        params: Json::Null,
    });
    assert_eq!(json_to_message(j), Ok(expected));
}

#[test]
fn decode_ignores_field_order_and_unknown_fields() {
    let j = obj(vec![
        ("jsonrpc", Json::Str(String::from("2.0"))),
        ("params", Json::Bool(true)),
        ("id", Json::Int(12)),
        ("method", Json::Str(String::from("shutdown"))),
    ]);
    let expected = Message::Request(Request {
        id: RequestId::Num(12),
        method: String::from("shutdown"),
        params: Json::Bool(true),
    });
    assert_eq!(json_to_message(j), Ok(expected));
}

#[test]
fn decode_reads_a_missing_params_field_as_null() {
    let j = obj(vec![("method", Json::Str(String::from("exit")))]);
    let expected = Message::Notification(Notification {
        method: String::from("exit"),
        params: Json::Null,
    });
    assert_eq!(json_to_message(j), Ok(expected));
}

#[test]
fn decode_rejects_malformed_payloads() {
    assert_eq!(json_to_message(Json::Int(3)), Err(DecodeError::NotAnObject));
    assert_eq!(
        json_to_message(obj(vec![("method", Json::Int(1))])),
        Err(DecodeError::BadMethod)
    );
    assert_eq!(
        json_to_message(obj(vec![
            ("method", Json::Str(String::from("shutdown"))),
            ("id", Json::Bool(false)),
        ])),
        Err(DecodeError::BadId)
    );
    assert_eq!(json_to_message(obj(vec![])), Err(DecodeError::BadShape));
    assert_eq!(
        json_to_message(obj(vec![
            ("id", Json::Int(1)),
            ("error", Json::Str(String::from("broken"))),
        ])),
        Err(DecodeError::BadErrorObject)
    );
}

#[test]
fn decode_accepts_a_response_with_a_result() {
    let j = obj(vec![("id", Json::Int(2)), ("result", Json::Null)]);
    let expected = Message::Response(Response {
        id: RequestId::Num(2),
        result: Some(Json::Null),
        error: None,
    });
    assert_eq!(json_to_message(j), Ok(expected));
}

#[test]
fn decode_accepts_a_response_with_an_error() {
    let j = obj(vec![
        ("id", Json::Int(2)),
        (
            "error",
            obj(vec![
                ("code", Json::Int(-32700)),
                ("message", Json::Str(String::from("bad payload"))),
            ]),
        ),
    ]);
    match json_to_message(j) {
        Ok(Message::Response(r)) => {
            assert_eq!(r.id, RequestId::Num(2));
            assert!(r.result.is_none());
            let e = r.error.expect("the error half must be kept");
            assert_eq!(e.code, ErrorCode::ParseError);
            assert_eq!(e.message, "bad payload");
        },
        other => panic!("expected an error response, got {:?}", other),
    }
}

#[test]
fn frames_carry_the_exact_header_and_payload() {
    let frame = encode_frame(b"hello".to_vec());
    assert_eq!(frame, b"Content-Length: 5\r\n\r\nhello".to_vec());
    let empty = encode_frame(Vec::new());
    assert_eq!(empty, b"Content-Length: 0\r\n\r\n".to_vec());
}

#[test]
fn content_length_parses_exactly_the_frame_headers() {
    assert_eq!(parse_content_length(&b"Content-Length: 123".to_vec()), Some(123));
    assert_eq!(parse_content_length(&b"Content-Length: 0".to_vec()), Some(0));
    assert_eq!(parse_content_length(&b"Content-Length: ".to_vec()), None);
    assert_eq!(parse_content_length(&b"Content-Length: 12a".to_vec()), None);
    assert_eq!(parse_content_length(&b"Content-Type: 12".to_vec()), None);
    assert_eq!(
        parse_content_length(&b"Content-Length: 99999999999999999999999999".to_vec()),
        None
    );
}

#[test]
fn every_error_code_has_its_description() {
    assert_eq!(ErrorCode::ParseError.description(), "parse error");
    assert_eq!(ErrorCode::MethodNotFound.description(), "method not found");
    assert_eq!(ErrorCode::ServerNotInitialized.description(), "server not initialized");
}

#[test]
fn every_error_code_has_its_wire_integer() {
    assert_eq!(ErrorCode::ParseError.code(), -32700);
    assert_eq!(ErrorCode::InvalidRequest.code(), -32600);
    assert_eq!(ErrorCode::MethodNotFound.code(), -32601);
    assert_eq!(ErrorCode::InvalidParams.code(), -32602);
    assert_eq!(ErrorCode::InternalError.code(), -32603);
    assert_eq!(ErrorCode::ServerNotInitialized.code(), -32002);
}
