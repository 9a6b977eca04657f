use nvim_agent::client::{Action, Client};
use nvim_agent::error::{DecodeFault, Error};
use nvim_agent::rpc::Message;
use nvim_agent::value::Val;

fn response(msgid: u64, error: Val, result: Val) -> Message {
    Message::Response {
        msgid,
        error,
        result,
    }
}

fn notify(method: &str, params: Vec<Val>) -> Message {
    Message::Notify {
        method: method.to_owned(),
        params,
    }
}

#[test]
fn call_reply_scenario() {
    // A call to "add" with arguments [2, 3], answered with 5.
    let mut c = Client::new();
    // Draw one id first so the call under test bears msgid 1.
    c.begin_call("warmup".to_owned(), vec![]).unwrap();
    let (msgid, frame) = c
        .begin_call("add".to_owned(), vec![Val::Int(2), Val::Int(3)])
        .unwrap();
    assert_eq!(msgid, 1);
    assert_eq!(
        frame,
        Message::Request {
            msgid: 1,
            method: "add".to_owned(),
            params: vec![Val::Int(2), Val::Int(3)],
        }
    );
    let a = c.handle_frame(response(1, Val::Nil, Val::Int(5)));
    assert_eq!(a, Action::Deliver(1, Ok(Val::Int(5))));
}

#[test]
fn msgids_are_distinct_and_each_call_resolves_once() {
    let mut c = Client::new();
    let mut ids = Vec::new();
    for _ in 0..4 {
        let (msgid, _) = c.begin_call("m".to_owned(), vec![]).unwrap();
        ids.push(msgid);
    }
    for i in 0..ids.len() {
        for j in i + 1..ids.len() {
            assert_ne!(ids[i], ids[j]);
        }
    }
    // Each response resolves exactly its own call; a second copy of a
    // response is dropped.
    let a = c.handle_frame(response(2, Val::Nil, Val::Bool(true)));
    assert_eq!(a, Action::Deliver(2, Ok(Val::Bool(true))));
    let again = c.handle_frame(response(2, Val::Nil, Val::Bool(true)));
    assert_eq!(again, Action::Ignored);
}

#[test]
fn replies_in_reverse_order_reach_their_callers() {
    let mut c = Client::new();
    let (first, _) = c.begin_call("a".to_owned(), vec![]).unwrap();
    let (second, _) = c.begin_call("b".to_owned(), vec![]).unwrap();
    let a2 = c.handle_frame(response(second, Val::Nil, Val::Str("b-reply".to_owned())));
    assert_eq!(a2, Action::Deliver(second, Ok(Val::Str("b-reply".to_owned()))));
    let a1 = c.handle_frame(response(first, Val::Nil, Val::Str("a-reply".to_owned())));
    assert_eq!(a1, Action::Deliver(first, Ok(Val::Str("a-reply".to_owned()))));
}

#[test]
fn unmatched_response_is_dropped_without_affecting_pending_calls() {
    let mut c = Client::new();
    let (msgid, _) = c.begin_call("m".to_owned(), vec![]).unwrap();
    let a = c.handle_frame(response(999, Val::Nil, Val::Nil));
    assert_eq!(a, Action::Ignored);
    // The pending call still resolves normally afterwards.
    let a = c.handle_frame(response(msgid, Val::Nil, Val::UInt(1)));
    assert_eq!(a, Action::Deliver(msgid, Ok(Val::UInt(1))));
}

#[test]
fn peer_error_resolves_as_response_error() {
    let mut c = Client::new();
    let (msgid, _) = c.begin_call("m".to_owned(), vec![]).unwrap();
    let a = c.handle_frame(response(msgid, Val::Str("boom".to_owned()), Val::Nil));
    assert_eq!(
        a,
        Action::Deliver(msgid, Err(Error::Response(Val::Str("boom".to_owned()))))
    );
}

#[test]
fn inbound_request_gets_canned_nil_reply() {
    let mut c = Client::new();
    let a = c.handle_frame(Message::Request {
        msgid: 17,
        method: "anything".to_owned(),
        params: vec![Val::Nil],
    });
    assert_eq!(a, Action::Reply(response(17, Val::Nil, Val::Nil)));
}

#[test]
fn reader_shutdown_releases_pending_calls() {
    let mut c = Client::new();
    let (first, _) = c.begin_call("a".to_owned(), vec![]).unwrap();
    let (second, _) = c.begin_call("b".to_owned(), vec![]).unwrap();
    let a = c.handle_read(Err(Error::Io("stream closed".to_owned())));
    match a {
        Action::Stopped(ids) => assert_eq!(ids, vec![first, second]),
        other => panic!("expected Stopped, got {:?}", other),
    }
    assert!(c.is_closed());
    // A call made after shutdown fails at once instead of hanging.
    assert_eq!(c.begin_call("c".to_owned(), vec![]), Err(Error::Delivery));
}

#[test]
fn malformed_frame_stops_the_loop() {
    let mut c = Client::new();
    let (msgid, _) = c.begin_call("m".to_owned(), vec![]).unwrap();
    // A non-array top-level value decodes to the exact fault.
    let bad = Message::decode(Val::Bool(true));
    assert_eq!(bad, Err(Error::Decode(DecodeFault::NotArray)));
    let a = c.handle_read(bad);
    match a {
        Action::Stopped(ids) => assert_eq!(ids, vec![msgid]),
        other => panic!("expected Stopped, got {:?}", other),
    }
    assert!(c.is_closed());
    // An array with an unrecognized tag is the other loop-ending fault.
    assert_eq!(
        Message::decode(Val::Array(vec![Val::UInt(9)])),
        Err(Error::Decode(DecodeFault::UnknownTag))
    );
}

#[test]
fn notifications_arrive_in_order() {
    let mut c = Client::new();
    let a = c.handle_frame(notify("tick", vec![Val::Int(1)]));
    assert_eq!(a, Action::Notified);
    let a = c.handle_frame(notify("tock", vec![Val::Int(2)]));
    assert_eq!(a, Action::Notified);
    assert_eq!(
        c.next_notification(),
        Some(("tick".to_owned(), vec![Val::Int(1)]))
    );
    assert_eq!(
        c.next_notification(),
        Some(("tock".to_owned(), vec![Val::Int(2)]))
    );
    assert_eq!(c.next_notification(), None);
}

#[test]
fn notifications_before_any_request_are_kept() {
    // Two "tick" notifications queued before any call is issued.
    let mut c = Client::new();
    c.handle_frame(notify("tick", vec![]));
    c.handle_frame(notify("tick", vec![]));
    assert_eq!(c.next_notification(), Some(("tick".to_owned(), vec![])));
    assert_eq!(c.next_notification(), Some(("tick".to_owned(), vec![])));
    assert_eq!(c.next_notification(), None);
}

#[test]
fn full_wire_session() {
    // A call travels the whole stack: engine to bytes, the peer's reply
    // back from bytes to the caller's delivery.
    let mut c = Client::new();
    let (msgid, frame) = c
        .begin_call("nvim_eval".to_owned(), vec![Val::Str("1+1".to_owned())])
        .unwrap();
    let mut request_bytes: Vec<u8> = Vec::new();
    frame.write_to(&mut request_bytes).unwrap();
    // The peer decodes the request and answers it.
    let seen = Message::read_from(&mut &request_bytes[..]).unwrap();
    let reply = match seen {
        Message::Request { msgid, .. } => response(msgid, Val::Nil, Val::Int(2)),
        other => panic!("peer expected a request, got {:?}", other),
    };
    let mut reply_bytes: Vec<u8> = Vec::new();
    reply.write_to(&mut reply_bytes).unwrap();
    let a = c.handle_read(Message::read_from(&mut &reply_bytes[..]));
    // Non-negative integers come back from the wire as unsigned.
    assert_eq!(a, Action::Deliver(msgid, Ok(Val::UInt(2))));
}
