use playwright::codec::{decode_message, decode_request, encode_message, encode_request, ErrorPayload, IncomingMessage, Request, ResponseOutcome};
use playwright::json::{to_bytes, JsonValue};
use playwright::transport::{frame_message, take_frame};

fn obj(fields: Vec<(&str, JsonValue)>) -> JsonValue {
    JsonValue::Obj(fields.into_iter().map(|(k, v)| (String::from(k), v)).collect())
}

fn s(x: &str) -> JsonValue {
    JsonValue::Str(String::from(x))
}

#[test]
fn frame_prefix_is_little_endian() {
    let payload = vec![0xaau8; 300];
    let framed = frame_message(&payload);
    assert_eq!(framed.len(), 304);
    assert_eq!(&framed[0..4], &[0x2c, 0x01, 0x00, 0x00]);
    assert_eq!(&framed[4..], &payload[..]);
}

#[test]
fn frame_round_trip() {
    let payload = b"hello".to_vec();
    let mut buf = frame_message(&payload);
    buf.extend_from_slice(&[1, 2, 3]);
    let (got, consumed) = take_frame(&buf).unwrap();
    assert_eq!(got, payload);
    assert_eq!(consumed, 9);
}

#[test]
fn short_frame_is_incomplete() {
    assert!(take_frame(&vec![5, 0, 0]).is_none());
    assert!(take_frame(&vec![5, 0, 0, 0, 1, 2]).is_none());
}

#[test]
fn ping_request_framing() {
    let req = Request {
        id: 1,
        guid: String::from("Playwright"),
        method: String::from("ping"),
        params: obj(vec![]),
    };
    let json = encode_request(&req);
    let bytes = to_bytes(&json);
    assert_eq!(
        bytes,
        br#"{"id":1,"guid":"Playwright","method":"ping","params":{}}"#.to_vec()
    );
    let framed = frame_message(&bytes);
    assert_eq!(framed[0] as usize, bytes.len());
    assert_eq!(&framed[1..4], &[0, 0, 0]);
    let (payload, consumed) = take_frame(&framed).unwrap();
    assert_eq!(payload, bytes);
    assert_eq!(consumed, bytes.len() + 4);
    let back = decode_request(&json).unwrap();
    assert_eq!(back.id, 1);
    assert_eq!(back.guid, "Playwright");
    assert_eq!(back.method, "ping");
    assert_eq!(to_bytes(&back.params), b"{}".to_vec());
}

#[test]
fn json_text_scalars() {
    assert_eq!(to_bytes(&JsonValue::Null), b"null".to_vec());
    assert_eq!(to_bytes(&JsonValue::Bool(true)), b"true".to_vec());
    assert_eq!(to_bytes(&JsonValue::Bool(false)), b"false".to_vec());
    assert_eq!(to_bytes(&JsonValue::Int(0)), b"0".to_vec());
    assert_eq!(to_bytes(&JsonValue::Int(-42)), b"-42".to_vec());
    assert_eq!(
        to_bytes(&JsonValue::Int(i64::MIN)),
        b"-9223372036854775808".to_vec()
    );
    assert_eq!(
        to_bytes(&JsonValue::Int(i64::MAX)),
        b"9223372036854775807".to_vec()
    );
}

#[test]
fn json_text_string_escapes() {
    assert_eq!(to_bytes(&s("plain")), br#""plain""#.to_vec());
    assert_eq!(to_bytes(&s("a\"b")), br#""a\"b""#.to_vec());
    assert_eq!(to_bytes(&s("a\\b")), br#""a\\b""#.to_vec());
    assert_eq!(to_bytes(&s("a\nb\tc\r")), br#""a\nb\tc\r""#.to_vec());
    assert_eq!(to_bytes(&s("\u{1}")), br#""\u0001""#.to_vec());
    assert_eq!(to_bytes(&s("\u{e9}")), br#""\u00e9""#.to_vec());
    assert_eq!(to_bytes(&s("\u{1F600}")), br#""\ud83d\ude00""#.to_vec());
}

#[test]
fn json_text_nested() {
    let v = obj(vec![
        ("xs", JsonValue::Arr(vec![JsonValue::Int(1), JsonValue::Int(2)])),
        ("o", obj(vec![("k", s("v"))])),
    ]);
    assert_eq!(to_bytes(&v), br#"{"xs":[1,2],"o":{"k":"v"}}"#.to_vec());
}

#[test]
fn json_text_matches_serde() {
    let v = obj(vec![
        ("id", JsonValue::Int(7)),
        ("guid", s("Playwright")),
        ("flags", JsonValue::Arr(vec![JsonValue::Bool(true), JsonValue::Null])),
        ("nested", obj(vec![("quality", JsonValue::Int(80))])),
    ]);
    let mine: serde_json::Value = serde_json::from_slice(&to_bytes(&v)).unwrap();
    let expected: serde_json::Value = serde_json::from_str(
        r#"{ "id": 7, "guid": "Playwright", "flags": [ true, null ], "nested": { "quality": 80 } }"#,
    )
    .unwrap();
    assert_eq!(mine, expected);
}

#[test]
fn message_codec_round_trip() {
    let m = IncomingMessage::Response {
        id: 9,
        outcome: ResponseOutcome::Success(obj(vec![("ok", JsonValue::Bool(true))])),
    };
    let j = encode_message(&m);
    match decode_message(&j).unwrap() {
        IncomingMessage::Response { id, outcome } => {
            assert_eq!(id, 9);
            match outcome {
                ResponseOutcome::Success(v) => {
                    assert_eq!(to_bytes(&v), br#"{"ok":true}"#.to_vec())
                }
                _ => panic!("expected success"),
            }
        }
        _ => panic!("expected response"),
    }

    let e = IncomingMessage::Response {
        id: 3,
        outcome: ResponseOutcome::Failure(ErrorPayload {
            name: String::from("TargetClosed"),
            message: String::from("gone"),
            stack: String::from(""),
        }),
    };
    let je = encode_message(&e);
    assert_eq!(
        to_bytes(&je),
        br#"{"id":3,"error":{"error":{"name":"TargetClosed","message":"gone","stack":""}}}"#.to_vec()
    );
    match decode_message(&je).unwrap() {
        IncomingMessage::Response { id, outcome } => {
            assert_eq!(id, 3);
            match outcome {
                ResponseOutcome::Failure(p) => {
                    assert_eq!(p.name, "TargetClosed");
                    assert_eq!(p.message, "gone");
                    assert_eq!(p.stack, "");
                }
                _ => panic!("expected failure"),
            }
        }
        _ => panic!("expected response"),
    }

    let ev = IncomingMessage::Event {
        guid: String::from("page@1"),
        method: String::from("console"),
        params: obj(vec![("text", s("hi"))]),
    };
    let jev = encode_message(&ev);
    match decode_message(&jev).unwrap() {
        IncomingMessage::Event { guid, method, params } => {
            assert_eq!(guid, "page@1");
            assert_eq!(method, "console");
            assert_eq!(to_bytes(&params), br#"{"text":"hi"}"#.to_vec());
        }
        _ => panic!("expected event"),
    }
}

#[test]
fn malformed_message_is_rejected() {
    assert!(decode_message(&JsonValue::Int(1)).is_none());
    assert!(decode_message(&obj(vec![("id", s("nope"))])).is_none());
    let bad_error = obj(vec![("id", JsonValue::Int(1)), ("error", JsonValue::Int(0))]);
    assert!(decode_message(&bad_error).is_none());
    assert!(decode_request(&obj(vec![("id", JsonValue::Int(-1))])).is_none());
}



