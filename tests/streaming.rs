use bitmax::error::{ClientError, FrameKind};
use bitmax::model::{AccountType, AuthType, Interval};
use bitmax::stream::{
    parse_message, DataKind, Frame, InboundMessage, Session, SubscribeTopic, WsOutMessage,
    WsRequest,
};

fn text(s: &str) -> Frame {
    Frame::Text(s.to_string())
}

#[test]
fn subscribe_topic_is_composite_string() {
    let ch = SubscribeTopic::Depth { symbol: "BTMX/USDT".to_string() };
    assert_eq!(ch.channel(), "depth:BTMX/USDT");
    let m = WsOutMessage::Subscribe { ch, id: None };
    assert_eq!(m.to_frame(), r#"{"op":"sub","ch":"depth:BTMX/USDT"}"#);
}

#[test]
fn bar_topic_carries_interval() {
    let ch = SubscribeTopic::Bar { symbol: "BTC/USDT".to_string(), interval: Interval::T5m };
    let m = WsOutMessage::Unsubscribe { ch, id: Some("7".to_string()) };
    assert_eq!(m.to_frame(), r#"{"op":"unsub","ch":"bar:5:BTC/USDT","id":"7"}"#);
    assert_eq!(SubscribeTopic::RefPx { symbol: "BTMX".to_string() }.channel(), "ref-px:BTMX");
}

#[test]
fn request_frame_wraps_action() {
    let m = WsOutMessage::Request {
        action: WsRequest::DepthSnapshot { symbol: "BTC/USDT".to_string() },
        id: Some("r1".to_string()),
        account: Some(AccountType::Cash),
    };
    assert_eq!(
        m.to_frame(),
        r#"{"op":"req","action":"depth-snapshot","args":{"symbol":"BTC/USDT"},"id":"r1","account":"cash"}"#
    );
    let m = WsOutMessage::Request { action: WsRequest::OpenOrder, id: None, account: None };
    assert_eq!(m.to_frame(), r#"{"op":"req","action":"open-order"}"#);
}

#[test]
fn ping_then_pong_is_accepted() {
    let mut s = Session::new();
    let r = s.receive(text(r#"{"m":"ping","hp":1}"#));
    assert!(matches!(r, Ok(InboundMessage::Ping { hp: 1 })));
    assert!(s.pong_due);
    let out = s.send(&WsOutMessage::Pong).unwrap();
    assert_eq!(out, r#"{"op":"pong"}"#);
    assert!(!s.pong_due);
    assert!(s.open);
}

#[test]
fn unknown_tag_is_decode_error_and_stream_goes_on() {
    let mut s = Session::new();
    let r = s.receive(text(r#"{"m":"mystery","x":1}"#));
    assert!(matches!(r, Err(ClientError::Decode { ref raw }) if raw == r#"{"m":"mystery","x":1}"#));
    assert!(s.open);
    let r = s.receive(text(r#"{"m":"connected","type":"unauth"}"#));
    assert!(matches!(r, Ok(InboundMessage::Connected { type_: AuthType::Unauth })));
}

#[test]
fn transport_frames_are_refused() {
    assert!(matches!(parse_message(Frame::Binary(vec![1])), Err(ClientError::UnexpectedFrame(FrameKind::Binary))));
    assert!(matches!(parse_message(Frame::Ping(vec![])), Err(ClientError::UnexpectedFrame(FrameKind::Ping))));
    assert!(matches!(parse_message(Frame::Pong(vec![])), Err(ClientError::UnexpectedFrame(FrameKind::Pong))));
}

#[test]
fn close_ends_session() {
    let mut s = Session::new();
    assert!(matches!(s.receive(Frame::Close), Ok(InboundMessage::Closed)));
    assert!(!s.open);
    assert!(matches!(s.send(&WsOutMessage::Pong), Err(ClientError::SessionClosed)));
}

#[test]
fn control_messages_decode() {
    let r = parse_message(text(r#"{"m":"sub","id":"abc","code":0,"ch":"depth:BTC/USDT"}"#));
    match r {
        Ok(InboundMessage::Subscribed { id, code, ch }) => {
            assert_eq!(id.as_deref(), Some("abc"));
            assert_eq!(code, 0);
            assert_eq!(ch, "depth:BTC/USDT");
        }
        other => panic!("unexpected {:?}", other),
    }
    let r = parse_message(text(r#"{"m":"unsub","code":0,"ch":"bbo:X"}"#));
    assert!(matches!(r, Ok(InboundMessage::Unsubscribed { id: None, code: 0, .. })));
    let r = parse_message(text(r#"{"m":"error","code":100005,"reason":"INVALID_WS_REQUEST_DATA","info":"x"}"#));
    assert!(matches!(r, Ok(InboundMessage::Error { code: 100005, .. })));
    let r = parse_message(text(r#"{"m":"disconnected","code":1,"reason":"r","info":"i"}"#));
    assert!(matches!(r, Ok(InboundMessage::Disconnected { code: 1, .. })));
    assert!(matches!(parse_message(text(r#"{"m":"ping","hp":300}"#)), Err(ClientError::Decode { .. })));
    assert!(matches!(parse_message(text("not json")), Err(ClientError::Decode { .. })));
}

#[test]
fn data_messages_keep_their_json() {
    let r = parse_message(text(r#"{"m":"trades","symbol":"BTC/USDT","data":[]}"#));
    assert!(matches!(r, Ok(InboundMessage::Data { kind: DataKind::Trades, .. })));
    let r = parse_message(text(r#"{"m":"depth-snapshot","symbol":"X","data":{}}"#));
    assert!(matches!(r, Ok(InboundMessage::Data { kind: DataKind::DepthSnapshot, .. })));
}

#[test]
fn public_stream_request_has_user_agent_only() {
    let (url, headers) = bitmax::auth::BitMaxClient::new().stream_request_at(false, 1).unwrap();
    assert_eq!(url, "wss://bitmax.io/stream");
    assert_eq!(headers, vec![("user-agent".to_string(), "bitmax-rs".to_string())]);
}

#[test]
fn authenticated_stream_request_is_signed_over_stream_path() {
    let c = bitmax::auth::BitMaxClient::with_auth("pub", "c2VjcmV0", None).unwrap();
    let (url, headers) = c.stream_request_at(true, 1600000000000).unwrap();
    assert_eq!(url, "wss://bitmax.io/stream");
    assert_eq!(headers.len(), 4);
    assert_eq!(headers[1], ("x-auth-key".to_string(), "pub".to_string()));
    assert_eq!(headers[2], ("x-auth-timestamp".to_string(), "1600000000000".to_string()));
    assert_eq!(
        headers[3],
        ("x-auth-signature".to_string(), "8dLulIh+v3Ra7OLBmW4WvTAWK+nbYbvKXxlYPzExv6E=".to_string())
    );
    assert_eq!(bitmax::auth::prehash_text("/stream", 1600000000000), "1600000000000+stream");
}

#[test]
fn authenticated_stream_request_needs_credentials() {
    let r = bitmax::auth::BitMaxClient::new().stream_request_at(true, 1);
    assert!(matches!(r, Err(ClientError::MissingAuth)));
}
