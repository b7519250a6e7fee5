use playwright::codec::{ErrorPayload, IncomingMessage, ResponseOutcome};
use playwright::connection::{Connection, ConnectionState, DispatchOutcome, Error};
use playwright::json::{to_bytes, JsonValue};
use playwright::registry::ObjectType;

fn obj(fields: Vec<(&str, JsonValue)>) -> JsonValue {
    JsonValue::Obj(fields.into_iter().map(|(k, v)| (String::from(k), v)).collect())
}

fn s(x: &str) -> JsonValue {
    JsonValue::Str(String::from(x))
}

fn create_msg(parent: &str, ty: &str, guid: &str) -> IncomingMessage {
    IncomingMessage::Event {
        guid: String::from(parent),
        method: String::from("__create__"),
        params: obj(vec![
            ("type", s(ty)),
            ("guid", s(guid)),
            ("initializer", obj(vec![])),
        ]),
    }
}

fn dispose_msg(guid: &str) -> IncomingMessage {
    IncomingMessage::Event {
        guid: String::from(guid),
        method: String::from("__dispose__"),
        params: obj(vec![]),
    }
}

#[test]
fn initial_object_registration() {
    let mut conn = Connection::new();
    assert!(conn.registry.lookup("Playwright").is_none());
    match conn.dispatch(create_msg("", "Playwright", "Playwright")) {
        DispatchOutcome::Created { guid } => assert_eq!(guid, "Playwright"),
        _ => panic!("expected creation"),
    }
    let idx = conn.registry.lookup("Playwright").unwrap();
    assert!(matches!(conn.registry.objects[idx].kind, ObjectType::Playwright));
    assert_eq!(conn.registry.objects[idx].parent, "");
}

#[test]
fn duplicate_guid_is_rejected() {
    let mut conn = Connection::new();
    conn.dispatch(create_msg("", "Playwright", "Playwright"));
    match conn.dispatch(create_msg("", "Browser", "Playwright")) {
        DispatchOutcome::Rejected => {}
        _ => panic!("second create for a live guid must be refused"),
    }
    assert!(conn.registry.lookup("Playwright").is_some());
}

#[test]
fn missing_parent_is_rejected() {
    let mut conn = Connection::new();
    match conn.dispatch(create_msg("nowhere", "Page", "p1")) {
        DispatchOutcome::Rejected => {}
        _ => panic!("create under an unknown parent must be refused"),
    }
    assert!(conn.registry.lookup("p1").is_none());
}

#[test]
fn live_set_tracks_creates_and_disposes() {
    let mut conn = Connection::new();
    conn.dispatch(create_msg("", "Browser", "b"));
    conn.dispatch(create_msg("b", "BrowserContext", "c1"));
    conn.dispatch(create_msg("b", "BrowserContext", "c2"));
    conn.dispatch(dispose_msg("c1"));
    assert!(conn.registry.lookup("b").is_some());
    assert!(conn.registry.lookup("c1").is_none());
    assert!(conn.registry.lookup("c2").is_some());
}

#[test]
fn request_ids_are_monotonic() {
    let mut conn = Connection::new();
    conn.dispatch(create_msg("", "Playwright", "Playwright"));
    let r1 = conn.send_request("Playwright", "ping", obj(vec![])).unwrap();
    let r2 = conn.send_request("Playwright", "ping", obj(vec![])).unwrap();
    let r3 = conn.send_request("Playwright", "ping", obj(vec![])).unwrap();
    assert_eq!(r1.id, 1);
    assert_eq!(r2.id, 2);
    assert_eq!(r3.id, 3);
}

#[test]
fn response_resumes_waiter_once() {
    let mut conn = Connection::new();
    conn.dispatch(create_msg("", "Playwright", "Playwright"));
    let mut last = 0;
    for _ in 0..7 {
        last = conn
            .send_request("Playwright", "ping", obj(vec![]))
            .unwrap()
            .id;
    }
    assert_eq!(last, 7);
    let response = IncomingMessage::Response {
        id: 7,
        outcome: ResponseOutcome::Success(obj(vec![("ok", JsonValue::Bool(true))])),
    };
    match conn.dispatch(response) {
        DispatchOutcome::ResponseDelivered { guid, outcome } => {
            assert_eq!(guid, "Playwright");
            match outcome {
                ResponseOutcome::Success(v) => {
                    assert_eq!(to_bytes(&v), br#"{"ok":true}"#.to_vec())
                }
                _ => panic!("expected success"),
            }
        }
        _ => panic!("expected delivery"),
    }
    let again = IncomingMessage::Response {
        id: 7,
        outcome: ResponseOutcome::Success(obj(vec![])),
    };
    match conn.dispatch(again) {
        DispatchOutcome::ResponseDropped => {}
        _ => panic!("a second response with the same id must be dropped"),
    }
}

#[test]
fn error_response_delivers_payload() {
    let mut conn = Connection::new();
    conn.dispatch(create_msg("", "Playwright", "Playwright"));
    for _ in 0..7 {
        conn.send_request("Playwright", "ping", obj(vec![])).unwrap();
    }
    let response = IncomingMessage::Response {
        id: 7,
        outcome: ResponseOutcome::Failure(ErrorPayload {
            name: String::from("TargetClosed"),
            message: String::from("Target page has been closed"),
            stack: String::from(""),
        }),
    };
    match conn.dispatch(response) {
        DispatchOutcome::ResponseDelivered { outcome, .. } => match outcome {
            ResponseOutcome::Failure(p) => {
                assert_eq!(p.name, "TargetClosed");
                assert_eq!(p.message, "Target page has been closed");
            }
            _ => panic!("expected failure"),
        },
        _ => panic!("expected delivery"),
    }
}

#[test]
fn dispose_cascade_fails_waiters() {
    let mut conn = Connection::new();
    conn.dispatch(create_msg("", "Browser", "B"));
    conn.dispatch(create_msg("B", "BrowserContext", "C"));
    conn.dispatch(create_msg("C", "Page", "P"));
    let req = conn.send_request("P", "screenshot", obj(vec![])).unwrap();
    match conn.dispatch(dispose_msg("B")) {
        DispatchOutcome::Disposed { removed, failed } => {
            assert_eq!(removed, vec!["B", "C", "P"]);
            assert_eq!(failed.len(), 1);
            assert_eq!(failed[0].id, req.id);
            assert_eq!(failed[0].guid, "P");
        }
        _ => panic!("expected disposal"),
    }
    assert!(conn.registry.lookup("B").is_none());
    assert!(conn.registry.lookup("C").is_none());
    assert!(conn.registry.lookup("P").is_none());
}

#[test]
fn event_fan_out_keeps_order() {
    let mut conn = Connection::new();
    conn.dispatch(create_msg("", "Page", "p"));
    let sub_a = conn.registry.subscribe("p", "console").unwrap();
    let sub_b = conn.registry.subscribe("p", "console").unwrap();
    for text in ["one", "two", "three"] {
        let ev = IncomingMessage::Event {
            guid: String::from("p"),
            method: String::from("console"),
            params: obj(vec![("text", s(text))]),
        };
        match conn.dispatch(ev) {
            DispatchOutcome::EventDelivered => {}
            _ => panic!("expected delivery"),
        }
    }
    for sub in [sub_a, sub_b] {
        for expect in ["one", "two", "three"] {
            let got = conn.registry.take_event("p", sub).unwrap();
            let want = format!(r#"{{"text":"{}"}}"#, expect);
            assert_eq!(to_bytes(&got), want.into_bytes());
        }
        assert!(conn.registry.take_event("p", sub).is_none());
    }
}

#[test]
fn unsubscribe_stops_delivery() {
    let mut conn = Connection::new();
    conn.dispatch(create_msg("", "Page", "p"));
    let sub = conn.registry.subscribe("p", "console").unwrap();
    assert!(conn.registry.unsubscribe("p", sub));
    let ev = IncomingMessage::Event {
        guid: String::from("p"),
        method: String::from("console"),
        params: obj(vec![]),
    };
    conn.dispatch(ev);
    assert!(conn.registry.take_event("p", sub).is_none());
}

#[test]
fn event_for_unknown_object() {
    let mut conn = Connection::new();
    let ev = IncomingMessage::Event {
        guid: String::from("ghost"),
        method: String::from("console"),
        params: obj(vec![]),
    };
    match conn.dispatch(ev) {
        DispatchOutcome::UnknownObject => {}
        _ => panic!("expected unknown object"),
    }
}

#[test]
fn close_fails_all_waiters_and_is_idempotent() {
    let mut conn = Connection::new();
    conn.dispatch(create_msg("", "Playwright", "Playwright"));
    conn.send_request("Playwright", "a", obj(vec![])).unwrap();
    conn.send_request("Playwright", "b", obj(vec![])).unwrap();
    let failed = conn.close();
    assert_eq!(failed.len(), 2);
    assert!(matches!(conn.state, ConnectionState::Closed));
    let failed_again = conn.close();
    assert!(failed_again.is_empty());
    match conn.send_request("Playwright", "c", obj(vec![])) {
        Err(Error::ConnectionClosed) => {}
        _ => panic!("a closed connection must refuse requests"),
    }
}

#[test]
fn send_to_unknown_object_is_object_gone() {
    let mut conn = Connection::new();
    match conn.send_request("ghost", "ping", obj(vec![])) {
        Err(Error::ObjectGone) => {}
        _ => panic!("expected ObjectGone"),
    }
}
