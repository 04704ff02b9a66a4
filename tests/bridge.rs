use prices::forwarding::{decode_payload, ForwardAction, ForwardEvent, ForwardPhase, Forwarder};
use prices::log::{log_info, log_line};
use prices::naming::{new_session_id, queue_name};
use prices::session::{
    session_close_frame, InboundMessage, SessionAction, SessionState, WebsocketClientSession,
    CLOSE_NORMAL,
};

fn expect_teardown(action: SessionAction) -> Option<String> {
    match action {
        SessionAction::Teardown { delete_queue, close } => {
            assert_eq!(close.code, 1000);
            assert_eq!(close.reason, "Session closed");
            delete_queue
        }
        other => panic!("expected a teardown, got {:?}", other),
    }
}

#[test]
fn queue_name_is_prefixed_id() {
    assert_eq!(queue_name("abc123"), "websocket:abc123");
    assert_eq!(queue_name(""), "websocket:");
}

#[test]
fn fresh_ids_are_uuids_and_differ() {
    let a = new_session_id();
    let b = new_session_id();
    assert_eq!(a.len(), 36);
    assert_ne!(a, b);
    assert_ne!(queue_name(&a), queue_name(&b));
}

#[test]
fn many_sessions_have_distinct_queues() {
    let mut names: Vec<String> = Vec::new();
    for _ in 0..50 {
        let s = WebsocketClientSession::new();
        assert_eq!(s.state(), SessionState::Provisioning);
        assert_eq!(s.queue_name(), format!("websocket:{}", s.uid()));
        names.push(s.queue_name());
    }
    let mut sorted = names.clone();
    sorted.sort();
    sorted.dedup();
    assert_eq!(sorted.len(), names.len());
}

#[test]
fn decode_accepts_text_and_rejects_invalid_bytes() {
    assert_eq!(decode_payload(b"{\"v\":1}".to_vec()), Some("{\"v\":1}".to_string()));
    assert_eq!(decode_payload("h\u{e9}".as_bytes().to_vec()), Some("h\u{e9}".to_string()));
    assert_eq!(decode_payload(vec![0xff, 0xfe]), None);
    assert_eq!(decode_payload(vec![]), Some(String::new()));
}

#[test]
fn full_session_round_trip() {
    let mut session = WebsocketClientSession::with_id("abc123".to_string());
    match session.on_open(true) {
        SessionAction::StartConsumer(q) => assert_eq!(q, "websocket:abc123"),
        other => panic!("unexpected {:?}", other),
    }
    assert_eq!(session.state(), SessionState::Open);

    let mut fwd = Forwarder::new();
    match fwd.step(ForwardEvent::Delivered(b"{\"v\":1}".to_vec())) {
        ForwardAction::SendText(t) => assert_eq!(t, "{\"v\":1}"),
        other => panic!("unexpected {:?}", other),
    }
    assert!(matches!(fwd.step(ForwardEvent::Sent), ForwardAction::Ack));
    assert!(matches!(fwd.step(ForwardEvent::Acked), ForwardAction::Next));

    let teardown = session.close_session();
    assert_eq!(expect_teardown(teardown), Some("websocket:abc123".to_string()));
    assert_eq!(session.state(), SessionState::Closing);
    assert!(matches!(fwd.step(ForwardEvent::Cancelled), ForwardAction::Finish));
    session.teardown_finished();
    assert_eq!(session.state(), SessionState::Closed);
}

#[test]
fn invalid_payload_is_acked_and_skipped() {
    let mut fwd = Forwarder::new();
    assert!(matches!(fwd.step(ForwardEvent::Delivered(vec![0xc3, 0x28])), ForwardAction::Ack));
    assert_eq!(fwd.phase(), ForwardPhase::AwaitAck);
    assert!(matches!(fwd.step(ForwardEvent::Acked), ForwardAction::Next));
    match fwd.step(ForwardEvent::Delivered(b"next".to_vec())) {
        ForwardAction::SendText(t) => assert_eq!(t, "next"),
        other => panic!("unexpected {:?}", other),
    }
}

#[test]
fn broken_connection_stops_forwarding_and_tears_down() {
    let mut session = WebsocketClientSession::with_id("abc123".to_string());
    session.on_open(true);
    let mut fwd = Forwarder::new();
    assert!(matches!(fwd.step(ForwardEvent::Delivered(b"x".to_vec())), ForwardAction::SendText(_)));
    assert!(matches!(fwd.step(ForwardEvent::SendFailed), ForwardAction::FinishAndTeardown));
    assert!(fwd.is_stopped());
    assert!(matches!(fwd.step(ForwardEvent::Delivered(b"y".to_vec())), ForwardAction::Ignore));
    assert!(matches!(fwd.step(ForwardEvent::Acked), ForwardAction::Ignore));
    assert_eq!(expect_teardown(session.close_session()), Some("websocket:abc123".to_string()));
}

#[test]
fn unreachable_broker_closes_without_queue() {
    let mut session = WebsocketClientSession::with_id("abc123".to_string());
    assert_eq!(expect_teardown(session.on_open(false)), None);
    assert_eq!(session.state(), SessionState::Closing);
    session.teardown_finished();
    assert_eq!(session.state(), SessionState::Closed);
    assert!(matches!(session.close_session(), SessionAction::Nothing));
}

#[test]
fn teardown_twice_deletes_once() {
    let mut session = WebsocketClientSession::with_id("s1".to_string());
    session.on_open(true);
    assert_eq!(expect_teardown(session.close_session()), Some("websocket:s1".to_string()));
    assert!(matches!(session.close_session(), SessionAction::Nothing));
    session.teardown_finished();
    assert!(matches!(session.close_session(), SessionAction::Nothing));
    assert_eq!(session.state(), SessionState::Closed);
}

#[test]
fn inbound_messages_are_dispatched_or_passed_over() {
    let mut session = WebsocketClientSession::with_id("s2".to_string());
    assert!(matches!(session.on_message(InboundMessage::Text("early".to_string())), SessionAction::Nothing));
    session.on_open(true);
    match session.on_message(InboundMessage::Text("hello".to_string())) {
        SessionAction::Dispatch(t) => assert_eq!(t, "hello"),
        other => panic!("unexpected {:?}", other),
    }
    assert!(matches!(session.on_message(InboundMessage::Binary(vec![1, 2])), SessionAction::Continue));
    assert!(matches!(session.on_message(InboundMessage::Ping(vec![])), SessionAction::Continue));
    assert!(matches!(session.on_message(InboundMessage::Pong(vec![])), SessionAction::Continue));
    assert_eq!(expect_teardown(session.on_message(InboundMessage::Close)), Some("websocket:s2".to_string()));
    assert!(matches!(session.on_message(InboundMessage::Text("late".to_string())), SessionAction::Nothing));
}

#[test]
fn open_twice_is_ignored() {
    let mut session = WebsocketClientSession::with_id("s3".to_string());
    session.on_open(true);
    assert!(matches!(session.on_open(true), SessionAction::Nothing));
    assert_eq!(session.state(), SessionState::Open);
}

#[test]
fn forwarding_keeps_order_and_acks_each_delivery() {
    let payloads: Vec<Vec<u8>> = vec![b"a".to_vec(), vec![0xff], b"b".to_vec(), vec![0x80, 0x80], b"c".to_vec()];
    let mut fwd = Forwarder::new();
    let mut sent: Vec<String> = Vec::new();
    let mut acks = 0;
    for p in payloads {
        let mut action = fwd.step(ForwardEvent::Delivered(p));
        loop {
            action = match action {
                ForwardAction::SendText(t) => {
                    sent.push(t);
                    fwd.step(ForwardEvent::Sent)
                }
                ForwardAction::Ack => {
                    acks += 1;
                    fwd.step(ForwardEvent::Acked)
                }
                ForwardAction::Next => break,
                other => panic!("unexpected {:?}", other),
            };
        }
    }
    assert_eq!(sent, vec!["a".to_string(), "b".to_string(), "c".to_string()]);
    assert_eq!(acks, 5);
}

#[test]
fn consumer_errors_and_failed_acks_do_not_stop_the_loop() {
    let mut fwd = Forwarder::new();
    assert!(matches!(fwd.step(ForwardEvent::ConsumerFailed), ForwardAction::Next));
    assert!(matches!(fwd.step(ForwardEvent::Delivered(vec![0xff])), ForwardAction::Ack));
    assert!(matches!(fwd.step(ForwardEvent::AckFailed), ForwardAction::Next));
    assert!(matches!(fwd.step(ForwardEvent::Sent), ForwardAction::Ignore));
    assert_eq!(fwd.phase(), ForwardPhase::AwaitDelivery);
    assert!(matches!(fwd.step(ForwardEvent::StreamEnded), ForwardAction::Finish));
    assert!(fwd.is_stopped());
}

#[test]
fn close_frame_is_normal() {
    let f = session_close_frame();
    assert_eq!(f.code, CLOSE_NORMAL);
    assert_eq!(f.reason, "Session closed");
}

#[test]
fn log_records_are_json() {
    assert_eq!(log_info("started", 5), "{\"message\":\"started\",\"value\":5}");
    assert_eq!(log_info("a\"b", -42), "{\"message\":\"a\\\"b\",\"value\":-42}");
    assert_eq!(log_line("\"q\"", 0), "{\"message\":\"q\",\"value\":0}");
    assert_eq!(log_info("m", i32::MIN), "{\"message\":\"m\",\"value\":-2147483648}");
}

#[test]
fn topic_messages_are_json_objects() {
    assert_eq!(
        prices::json::topic_message("prices", "BTC 1"),
        "{\"payload\":\"BTC 1\",\"topic\":\"prices\"}"
    );
    assert_eq!(
        prices::json::topic_frame("\"t\"", "\"p\""),
        "{\"payload\":\"p\",\"topic\":\"t\"}"
    );
    assert_eq!(
        prices::json::topic_message("a\nb", ""),
        "{\"payload\":\"\",\"topic\":\"a\\nb\"}"
    );
}

#[test]
fn session_ids_are_v4_uuids() {
    for _ in 0..20 {
        let id = new_session_id();
        let c: Vec<char> = id.chars().collect();
        assert_eq!(c.len(), 36);
        for (i, ch) in c.iter().enumerate() {
            if i == 8 || i == 13 || i == 18 || i == 23 {
                assert_eq!(*ch, '-');
            } else {
                assert!(ch.is_ascii_digit() || ('a'..='f').contains(ch));
            }
        }
        assert_eq!(c[14], '4');
        assert!(['8', '9', 'a', 'b'].contains(&c[19]));
        let s = WebsocketClientSession::new();
        assert_eq!(s.uid().len(), 36);
    }
}

#[test]
fn json_strings_escape_controls_quotes_and_backslashes() {
    assert_eq!(
        prices::json::topic_message("\u{1}\u{8}\t\n\u{c}\r\u{1f}", "\\\"\u{e9}"),
        "{\"payload\":\"\\\\\\\"\u{e9}\",\"topic\":\"\\u0001\\b\\t\\n\\f\\r\\u001f\"}"
    );
}

#[test]
fn decimal_values_in_log_records() {
    assert_eq!(log_info("", 0), "{\"message\":\"\",\"value\":0}");
    assert_eq!(log_info("x", 9), "{\"message\":\"x\",\"value\":9}");
    assert_eq!(log_info("x", 10), "{\"message\":\"x\",\"value\":10}");
    assert_eq!(log_info("x", i32::MAX), "{\"message\":\"x\",\"value\":2147483647}");
    assert_eq!(log_info("x", -1), "{\"message\":\"x\",\"value\":-1}");
    assert_eq!(prices::log::decimal(-1000), "-1000");
}
