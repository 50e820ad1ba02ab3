//! The streaming protocol: outbound control frames, inbound dispatch on the
//! `m` tag, and the keep-alive obligation of an open session.
use vstd::prelude::*;
use vstd::string::StringExecFns;

use crate::encode::{json_body, json_object, params_view, Param, ParamValue, ValueView};
use crate::error::{ClientError, FrameKind};
use crate::json::{field, get_field, get_u64, json_of, json_u64, parse_json, Json};
use crate::model::{AccountType, AuthType, Interval};
use crate::request::{opt_text_view, PlaceOrder};
use crate::auth::{auth_headers_spec, headers_view, Auth, BitMaxClient};
use crate::text::{owned, text_eq};

verus! {

/// A stream to subscribe to.
#[derive(Clone, Debug)]
pub enum SubscribeTopic {
    Depth { symbol: String },
    Bbo { symbol: String },
    Trades { symbol: String },
    Bar { symbol: String, interval: Interval },
    RefPx { symbol: String },
}

impl SubscribeTopic {
    /// The channel text: `<kind>:<symbol>`, or `bar:<interval>:<symbol>`.
    pub open spec fn topic_text(self) -> Seq<char> {
        match self {
            SubscribeTopic::Depth { symbol } => "depth:"@ + symbol@,
            SubscribeTopic::Bbo { symbol } => "bbo:"@ + symbol@,
            SubscribeTopic::Trades { symbol } => "trades:"@ + symbol@,
            SubscribeTopic::Bar { symbol, interval } => "bar:"@ + interval.wire_name() + ":"@
                + symbol@,
            SubscribeTopic::RefPx { symbol } => "ref-px:"@ + symbol@,
        }
    }

    pub fn channel(&self) -> (r: String)
        ensures
            r@ == self.topic_text(),
    {
        let mut s = String::new();
        match self {
            SubscribeTopic::Depth { symbol } => {
                s.append("depth:");
                s.append(symbol.as_str());
            },
            SubscribeTopic::Bbo { symbol } => {
                s.append("bbo:");
                s.append(symbol.as_str());
            },
            SubscribeTopic::Trades { symbol } => {
                s.append("trades:");
                s.append(symbol.as_str());
            },
            SubscribeTopic::Bar { symbol, interval } => {
                s.append("bar:");
                s.append(interval.as_wire());
                s.append(":");
                s.append(symbol.as_str());
            },
            SubscribeTopic::RefPx { symbol } => {
                s.append("ref-px:");
                s.append(symbol.as_str());
            },
        }
        assert(s@ =~= self.topic_text());
        s
    }
}

/// A one-shot action sent over an open stream.
#[derive(Clone, Debug)]
pub enum WsRequest {
    PlaceOrder(PlaceOrder),
    CancelOrder,
    CancelAll,
    DepthSnapshot { symbol: String },
    DepthSnapshotTop100 { symbol: String },
    MarketTrades,
    Balance,
    OpenOrder,
    MarginRisk,
}

pub open spec fn symbol_args(symbol: Seq<char>) -> ValueView {
    ValueView::Nested(json_object(seq![("symbol"@, ValueView::Text(symbol))]))
}

impl WsRequest {
    pub open spec fn action_name(self) -> Seq<char> {
        match self {
            WsRequest::PlaceOrder(_) => "place-order"@,
            WsRequest::CancelOrder => "cancel-order"@,
            WsRequest::CancelAll => "cancel-all"@,
            WsRequest::DepthSnapshot { .. } => "depth-snapshot"@,
            WsRequest::DepthSnapshotTop100 { .. } => "depth-snapshot-top100"@,
            WsRequest::MarketTrades => "market-trades"@,
            WsRequest::Balance => "balance"@,
            WsRequest::OpenOrder => "open-order"@,
            WsRequest::MarginRisk => "margin-risk"@,
        }
    }

    /// The `args` object: the order for placing one, the symbol for depth
    /// snapshots, none otherwise.
    pub open spec fn args_spec(self) -> ValueView {
        match self {
            WsRequest::PlaceOrder(o) => ValueView::Nested(json_object(o.params_spec())),
            WsRequest::DepthSnapshot { symbol } => symbol_args(symbol@),
            WsRequest::DepthSnapshotTop100 { symbol } => symbol_args(symbol@),
            _ => ValueView::Absent,
        }
    }

    fn action(&self) -> (r: &'static str)
        ensures
            r@ == self.action_name(),
    {
        match self {
            WsRequest::PlaceOrder(_) => "place-order",
            WsRequest::CancelOrder => "cancel-order",
            WsRequest::CancelAll => "cancel-all",
            WsRequest::DepthSnapshot { .. } => "depth-snapshot",
            WsRequest::DepthSnapshotTop100 { .. } => "depth-snapshot-top100",
            WsRequest::MarketTrades => "market-trades",
            WsRequest::Balance => "balance",
            WsRequest::OpenOrder => "open-order",
            WsRequest::MarginRisk => "margin-risk",
        }
    }

    fn args(&self) -> (r: ParamValue)
        ensures
            crate::encode::value_view(r) == self.args_spec(),
    {
        match self {
            WsRequest::PlaceOrder(o) => ParamValue::Nested(json_body(&o.params())),
            WsRequest::DepthSnapshot { symbol } => ParamValue::Nested(symbol_object(symbol)),
            WsRequest::DepthSnapshotTop100 { symbol } => ParamValue::Nested(symbol_object(symbol)),
            _ => ParamValue::Absent,
        }
    }
}

fn symbol_object(symbol: &String) -> (r: String)
    ensures
        r@ == json_object(seq![("symbol"@, ValueView::Text(symbol@))]),
{
    let mut v: Vec<Param> = Vec::new();
    v.push(Param { name: "symbol", value: ParamValue::Text(symbol.clone()) });
    assert(params_view(v@) =~= seq![("symbol"@, ValueView::Text(symbol@))]);
    json_body(&v)
}

/// An outbound frame, tagged by `op`.
#[derive(Clone, Debug)]
pub enum WsOutMessage {
    Subscribe { ch: SubscribeTopic, id: Option<String> },
    Unsubscribe { ch: SubscribeTopic, id: Option<String> },
    Request { action: WsRequest, id: Option<String>, account: Option<AccountType> },
    Pong,
}

impl WsOutMessage {
    /// The members of the frame's JSON object; absent ones are left out.
    pub open spec fn frame_params(self) -> Seq<(Seq<char>, ValueView)> {
        match self {
            WsOutMessage::Subscribe { ch, id } => seq![
                ("op"@, ValueView::Text("sub"@)),
                ("ch"@, ValueView::Text(ch.topic_text())),
                ("id"@, opt_text_view(id)),
            ],
            WsOutMessage::Unsubscribe { ch, id } => seq![
                ("op"@, ValueView::Text("unsub"@)),
                ("ch"@, ValueView::Text(ch.topic_text())),
                ("id"@, opt_text_view(id)),
            ],
            WsOutMessage::Request { action, id, account } => seq![
                ("op"@, ValueView::Text("req"@)),
                ("action"@, ValueView::Text(action.action_name())),
                ("args"@, action.args_spec()),
                ("id"@, opt_text_view(id)),
                ("account"@, account_view(account)),
            ],
            WsOutMessage::Pong => seq![("op"@, ValueView::Text("pong"@))],
        }
    }

    /// The text frame: a compact JSON object.
    pub open spec fn frame_text(self) -> Seq<char> {
        json_object(self.frame_params())
    }

    pub fn to_frame(&self) -> (r: String)
        ensures
            r@ == self.frame_text(),
    {
        let mut v: Vec<Param> = Vec::new();
        match self {
            WsOutMessage::Subscribe { ch, id } => {
                v.push(text_param("op", "sub"));
                v.push(Param { name: "ch", value: ParamValue::Text(ch.channel()) });
                v.push(opt_param("id", id));
            },
            WsOutMessage::Unsubscribe { ch, id } => {
                v.push(text_param("op", "unsub"));
                v.push(Param { name: "ch", value: ParamValue::Text(ch.channel()) });
                v.push(opt_param("id", id));
            },
            WsOutMessage::Request { action, id, account } => {
                v.push(text_param("op", "req"));
                v.push(text_param("action", action.action()));
                v.push(Param { name: "args", value: action.args() });
                v.push(opt_param("id", id));
                match account {
                    Some(a) => v.push(text_param("account", a.as_wire())),
                    None => v.push(Param { name: "account", value: ParamValue::Absent }),
                }
            },
            WsOutMessage::Pong => {
                v.push(text_param("op", "pong"));
            },
        }
        assert(params_view(v@) =~= self.frame_params());
        json_body(&v)
    }
}

pub open spec fn account_view(a: Option<AccountType>) -> ValueView {
    match a {
        Some(t) => ValueView::Text(t.wire_name()),
        None => ValueView::Absent,
    }
}

fn text_param(name: &'static str, value: &str) -> (r: Param)
    ensures
        r.name == name,
        crate::encode::value_view(r.value) == ValueView::Text(value@),
{
    Param { name, value: ParamValue::Text(owned(value)) }
}

fn opt_param(name: &'static str, value: &Option<String>) -> (r: Param)
    ensures
        r.name == name,
        crate::encode::value_view(r.value) == opt_text_view(*value),
{
    match value {
        Some(s) => Param { name, value: ParamValue::Text(s.clone()) },
        None => Param { name, value: ParamValue::Absent },
    }
}

/// A frame as the transport delivers it.
#[derive(Clone, Debug)]
pub enum Frame {
    Text(String),
    Binary(Vec<u8>),
    Ping(Vec<u8>),
    Pong(Vec<u8>),
    Close,
}

/// Kind of a market or account data message.
#[derive(Copy, Clone, Debug, PartialEq, Eq, Structural)]
pub enum DataKind {
    Depth,
    Bbo,
    Trades,
    Bar,
    RefPx,
    DepthSnapshot,
    Order,
}

impl DataKind {
    pub open spec fn from_tag_spec(t: Seq<char>) -> Option<DataKind> {
        if t == "depth"@ {
            Some(DataKind::Depth)
        } else if t == "bbo"@ {
            Some(DataKind::Bbo)
        } else if t == "trades"@ {
            Some(DataKind::Trades)
        } else if t == "bar"@ {
            Some(DataKind::Bar)
        } else if t == "ref-px"@ {
            Some(DataKind::RefPx)
        } else if t == "depth-snapshot"@ {
            Some(DataKind::DepthSnapshot)
        } else if t == "order"@ {
            Some(DataKind::Order)
        } else {
            None
        }
    }

    pub fn from_tag(t: &str) -> (r: Option<DataKind>)
        ensures
            r == Self::from_tag_spec(t@),
    {
        if text_eq(t, "depth") {
            Some(DataKind::Depth)
        } else if text_eq(t, "bbo") {
            Some(DataKind::Bbo)
        } else if text_eq(t, "trades") {
            Some(DataKind::Trades)
        } else if text_eq(t, "bar") {
            Some(DataKind::Bar)
        } else if text_eq(t, "ref-px") {
            Some(DataKind::RefPx)
        } else if text_eq(t, "depth-snapshot") {
            Some(DataKind::DepthSnapshot)
        } else if text_eq(t, "order") {
            Some(DataKind::Order)
        } else {
            None
        }
    }
}

/// An inbound message. Control messages are decoded here; data messages
/// keep their JSON for the typed record decoders.
#[derive(Debug)]
pub enum InboundMessage {
    Ping { hp: u8 },
    Disconnected { code: u32, reason: String, info: String },
    Error { code: u32, reason: String, info: String },
    Connected { type_: AuthType },
    Closed,
    Subscribed { id: Option<String>, code: u32, ch: String },
    Unsubscribed { id: Option<String>, code: u32, ch: String },
    Data { kind: DataKind, message: Json },
}

/// An inbound message as mathematical values.
pub enum InboundView {
    Ping { hp: int },
    Disconnected { code: int, reason: Seq<char>, info: Seq<char> },
    Error { code: int, reason: Seq<char>, info: Seq<char> },
    Connected { type_: AuthType },
    Closed,
    Subscribed { id: Option<Seq<char>>, code: int, ch: Seq<char> },
    Unsubscribed { id: Option<Seq<char>>, code: int, ch: Seq<char> },
    Data { kind: DataKind, message: Json },
}

pub open spec fn opt_view(o: Option<String>) -> Option<Seq<char>> {
    match o {
        Some(s) => Some(s@),
        None => None,
    }
}

pub open spec fn inbound_view(m: InboundMessage) -> InboundView {
    match m {
        InboundMessage::Ping { hp } => InboundView::Ping { hp: hp as int },
        InboundMessage::Disconnected { code, reason, info } => InboundView::Disconnected {
            code: code as int,
            reason: reason@,
            info: info@,
        },
        InboundMessage::Error { code, reason, info } => InboundView::Error {
            code: code as int,
            reason: reason@,
            info: info@,
        },
        InboundMessage::Connected { type_ } => InboundView::Connected { type_ },
        InboundMessage::Closed => InboundView::Closed,
        InboundMessage::Subscribed { id, code, ch } => InboundView::Subscribed {
            id: opt_view(id),
            code: code as int,
            ch: ch@,
        },
        InboundMessage::Unsubscribed { id, code, ch } => InboundView::Unsubscribed {
            id: opt_view(id),
            code: code as int,
            ch: ch@,
        },
        InboundMessage::Data { kind, message } => InboundView::Data { kind, message },
    }
}

/// An unsigned member no greater than `max`.
pub open spec fn bounded_field(j: Json, key: Seq<char>, max: int) -> Option<int> {
    match field(j, key) {
        Some(v) => match json_u64(v) {
            Some(n) => if n <= max {
                Some(n)
            } else {
                None
            },
            None => None,
        },
        None => None,
    }
}

/// A string member.
pub open spec fn text_field(j: Json, key: Seq<char>) -> Option<Seq<char>> {
    match field(j, key) {
        Some(Json::Str(s)) => Some(s@),
        _ => None,
    }
}

/// An optional string member: missing or null is `None` inside.
pub open spec fn opt_text_field(j: Json, key: Seq<char>) -> Option<Option<Seq<char>>> {
    match field(j, key) {
        None => Some(None),
        Some(Json::Null) => Some(None),
        Some(Json::Str(s)) => Some(Some(s@)),
        _ => None,
    }
}

/// The message that an inbound object denotes, dispatched on its `m` tag;
/// nothing when the tag is unknown or a member is missing or mistyped.
pub open spec fn inbound_spec(j: Json) -> Option<InboundView> {
    match text_field(j, "m"@) {
        None => None,
        Some(tag) => if tag == "ping"@ {
            match bounded_field(j, "hp"@, 255) {
                Some(hp) => Some(InboundView::Ping { hp }),
                None => None,
            }
        } else if tag == "disconnected"@ || tag == "error"@ {
            match (
                bounded_field(j, "code"@, u32::MAX as int),
                text_field(j, "reason"@),
                text_field(j, "info"@),
            ) {
                (Some(code), Some(reason), Some(info)) => if tag == "error"@ {
                    Some(InboundView::Error { code, reason, info })
                } else {
                    Some(InboundView::Disconnected { code, reason, info })
                },
                _ => None,
            }
        } else if tag == "connected"@ {
            match text_field(j, "type"@) {
                Some(t) => match AuthType::from_wire_spec(t) {
                    Some(type_) => Some(InboundView::Connected { type_ }),
                    None => None,
                },
                None => None,
            }
        } else if tag == "closed"@ {
            Some(InboundView::Closed)
        } else if tag == "sub"@ || tag == "unsub"@ {
            match (
                opt_text_field(j, "id"@),
                bounded_field(j, "code"@, u32::MAX as int),
                text_field(j, "ch"@),
            ) {
                (Some(id), Some(code), Some(ch)) => if tag == "sub"@ {
                    Some(InboundView::Subscribed { id, code, ch })
                } else {
                    Some(InboundView::Unsubscribed { id, code, ch })
                },
                _ => None,
            }
        } else {
            match DataKind::from_tag_spec(tag) {
                Some(kind) => Some(InboundView::Data { kind, message: j }),
                None => None,
            }
        },
    }
}

/// What decoding a text frame yields.
pub open spec fn text_outcome(text: Seq<char>, r: Result<InboundMessage, ClientError>) -> bool {
    match json_of(text) {
        Some(j) => match inbound_spec(j) {
            Some(v) => r is Ok && inbound_view(r->Ok_0) == v,
            None => r is Err && r->Err_0 is Decode && r->Err_0->Decode_raw@ == text,
        },
        None => r is Err && r->Err_0 is Decode && r->Err_0->Decode_raw@ == text,
    }
}

/// What decoding a frame yields: text is dispatched, a close frame ends the
/// stream, and transport pings, pongs and binary data are refused.
pub open spec fn frame_outcome(f: Frame, r: Result<InboundMessage, ClientError>) -> bool {
    match f {
        Frame::Text(t) => text_outcome(t@, r),
        Frame::Close => r matches Ok(InboundMessage::Closed),
        Frame::Binary(_) => r matches Err(ClientError::UnexpectedFrame(FrameKind::Binary)),
        Frame::Ping(_) => r matches Err(ClientError::UnexpectedFrame(FrameKind::Ping)),
        Frame::Pong(_) => r matches Err(ClientError::UnexpectedFrame(FrameKind::Pong)),
    }
}

fn read_bounded(j: &Json, key: &str, max: u64) -> (r: Option<u64>)
    ensures
        match r {
            Some(n) => bounded_field(*j, key@, max as int) == Some(n as int),
            None => bounded_field(*j, key@, max as int) is None,
        },
{
    match get_field(j, key) {
        Some(v) => match get_u64(v) {
            Some(n) => if n <= max {
                Some(n)
            } else {
                None
            },
            None => None,
        },
        None => None,
    }
}

fn read_text(j: &Json, key: &str) -> (r: Option<String>)
    ensures
        opt_view(r) == text_field(*j, key@),
{
    match get_field(j, key) {
        Some(Json::Str(s)) => Some(s.clone()),
        _ => None,
    }
}

fn read_opt_text(j: &Json, key: &str) -> (r: Option<Option<String>>)
    ensures
        match r {
            Some(o) => opt_text_field(*j, key@) == Some(opt_view(o)),
            None => opt_text_field(*j, key@) is None,
        },
{
    match get_field(j, key) {
        None => Some(None),
        Some(Json::Null) => Some(None),
        Some(Json::Str(s)) => Some(Some(s.clone())),
        _ => None,
    }
}

/// Decodes a JSON object into a message by its `m` tag.
fn dispatch(j: Json) -> (r: Option<InboundMessage>)
    ensures
        match r {
            Some(m) => inbound_spec(j) == Some(inbound_view(m)),
            None => inbound_spec(j) is None,
        },
{
    let tag = match read_text(&j, "m") {
        Some(t) => t,
        None => {
            return None;
        },
    };
    let t = tag.as_str();
    if text_eq(t, "ping") {
        match read_bounded(&j, "hp", 255) {
            Some(hp) => Some(InboundMessage::Ping { hp: hp as u8 }),
            None => None,
        }
    } else if text_eq(t, "disconnected") || text_eq(t, "error") {
        let code = read_bounded(&j, "code", 4294967295u64);
        let reason = read_text(&j, "reason");
        let info = read_text(&j, "info");
        match (code, reason, info) {
            (Some(code), Some(reason), Some(info)) => if text_eq(t, "error") {
                Some(InboundMessage::Error { code: code as u32, reason, info })
            } else {
                Some(InboundMessage::Disconnected { code: code as u32, reason, info })
            },
            _ => None,
        }
    } else if text_eq(t, "connected") {
        match read_text(&j, "type") {
            Some(s) => match AuthType::from_wire(s.as_str()) {
                Some(type_) => Some(InboundMessage::Connected { type_ }),
                None => None,
            },
            None => None,
        }
    } else if text_eq(t, "closed") {
        Some(InboundMessage::Closed)
    } else if text_eq(t, "sub") || text_eq(t, "unsub") {
        let id = read_opt_text(&j, "id");
        let code = read_bounded(&j, "code", 4294967295u64);
        let ch = read_text(&j, "ch");
        match (id, code, ch) {
            (Some(id), Some(code), Some(ch)) => if text_eq(t, "sub") {
                Some(InboundMessage::Subscribed { id, code: code as u32, ch })
            } else {
                Some(InboundMessage::Unsubscribed { id, code: code as u32, ch })
            },
            _ => None,
        }
    } else {
        match DataKind::from_tag(t) {
            Some(kind) => Some(InboundMessage::Data { kind, message: j }),
            None => None,
        }
    }
}

/// Decodes one text frame; a malformed or unknown message is a decode error
/// that carries the text.
pub fn decode_text(text: String) -> (r: Result<InboundMessage, ClientError>)
    ensures
        text_outcome(text@, r),
{
    match parse_json(text.as_str()) {
        Some(j) => match dispatch(j) {
            Some(m) => Ok(m),
            None => Err(ClientError::Decode { raw: text }),
        },
        None => Err(ClientError::Decode { raw: text }),
    }
}

/// Decodes one transport frame.
pub fn parse_message(frame: Frame) -> (r: Result<InboundMessage, ClientError>)
    ensures
        frame_outcome(frame, r),
{
    match frame {
        Frame::Text(t) => decode_text(t),
        Frame::Binary(_) => Err(ClientError::UnexpectedFrame(FrameKind::Binary)),
        Frame::Ping(_) => Err(ClientError::UnexpectedFrame(FrameKind::Ping)),
        Frame::Pong(_) => Err(ClientError::UnexpectedFrame(FrameKind::Pong)),
        Frame::Close => Ok(InboundMessage::Closed),
    }
}

/// The client's view of an open stream session.
#[derive(Copy, Clone, Debug, PartialEq, Eq, Structural)]
pub struct Session {
    /// No close frame has been received.
    pub open: bool,
    /// A ping was received and no pong has been sent since.
    pub pong_due: bool,
}

/// The session after an inbound outcome: a ping makes a pong due, a close
/// ends the session, and anything else, errors included, leaves it as it was.
pub open spec fn session_after_receive(s: Session, r: Result<InboundMessage, ClientError>) -> Session {
    match r {
        Ok(InboundMessage::Ping { .. }) => Session { open: s.open, pong_due: true },
        Ok(InboundMessage::Closed) => Session { open: false, pong_due: s.pong_due },
        _ => s,
    }
}

/// The session after sending a message while open: a pong settles a due pong.
pub open spec fn session_after_send(s: Session, m: WsOutMessage) -> Session {
    Session { open: s.open, pong_due: s.pong_due && !(m is Pong) }
}

impl Session {
    pub fn new() -> (r: Session)
        ensures
            r.open,
            !r.pong_due,
    {
        Session { open: true, pong_due: false }
    }

    /// Decodes one inbound frame and updates the session. A decode error is
    /// returned for that frame only; the session stays open.
    pub fn receive(&mut self, frame: Frame) -> (r: Result<InboundMessage, ClientError>)
        ensures
            frame_outcome(frame, r),
            *final(self) == session_after_receive(*old(self), r),
    {
        let r = parse_message(frame);
        match &r {
            Ok(InboundMessage::Ping { .. }) => {
                self.pong_due = true;
            },
            Ok(InboundMessage::Closed) => {
                self.open = false;
            },
            _ => {},
        }
        r
    }

    /// The text frame for an outbound message; refused once the session has
    /// ended.
    pub fn send(&mut self, msg: &WsOutMessage) -> (r: Result<String, ClientError>)
        ensures
            old(self).open ==> r is Ok && r->Ok_0@ == msg.frame_text() && *final(self)
                == session_after_send(*old(self), *msg),
            !old(self).open ==> (r matches Err(ClientError::SessionClosed)),
            !old(self).open ==> *final(self) == *old(self),
    {
        if !self.open {
            return Err(ClientError::SessionClosed);
        }
        let text = msg.to_frame();
        match msg {
            WsOutMessage::Pong => {
                self.pong_due = false;
            },
            _ => {},
        }
        Ok(text)
    }
}

/// The tags that name a message kind.
pub open spec fn known_tag(tag: Seq<char>) -> bool {
    ||| tag == "ping"@
    ||| tag == "disconnected"@
    ||| tag == "error"@
    ||| tag == "connected"@
    ||| tag == "closed"@
    ||| tag == "sub"@
    ||| tag == "unsub"@
    ||| DataKind::from_tag_spec(tag) is Some
}

/// A frame whose `m` tag names no message kind is a decode error for that
/// frame alone: the session stays open and as it was.
pub proof fn lemma_unknown_tag_is_isolated(
    s: Session,
    text: Seq<char>,
    j: Json,
    r: Result<InboundMessage, ClientError>,
)
    requires
        json_of(text) == Some(j),
        text_field(j, "m"@) matches Some(tag) && !known_tag(tag),
        text_outcome(text, r),
    ensures
        r is Err && r->Err_0 is Decode,
        session_after_receive(s, r) == s,
{
}

/// The upgrade request's headers: the user agent, then for an authenticated
/// session the signing headers over `/stream`.
pub open spec fn stream_headers_spec(auth: Option<Auth>, authenticated: bool, timestamp: int) -> Seq<
    (Seq<char>, Seq<char>),
> {
    if authenticated {
        seq![("user-agent"@, "bitmax-rs"@)] + auth_headers_spec(auth->Some_0, "/stream"@, timestamp)
    } else {
        seq![("user-agent"@, "bitmax-rs"@)]
    }
}

impl BitMaxClient {
    /// The URL and headers of the stream's upgrade request at `timestamp`
    /// (milliseconds). An authenticated session needs credentials.
    pub fn stream_request_at(&self, authenticated: bool, timestamp: i64) -> (r: Result<
        (String, Vec<(String, String)>),
        ClientError,
    >)
        ensures
            if authenticated && self.auth is None {
                r matches Err(ClientError::MissingAuth)
            } else {
                &&& r is Ok
                &&& r->Ok_0.0@ == "wss://bitmax.io/stream"@
                &&& headers_view(r->Ok_0.1@) == stream_headers_spec(
                    self.auth,
                    authenticated,
                    timestamp as int,
                )
            },
    {
        let url = owned("wss://bitmax.io/stream");
        let mut headers: Vec<(String, String)> = Vec::new();
        headers.push((owned("user-agent"), owned("bitmax-rs")));
        assert(headers_view(headers@) =~= seq![("user-agent"@, "bitmax-rs"@)]);
        if authenticated {
            match self.attach_auth_headers(&mut headers, "/stream", timestamp) {
                Ok(()) => {},
                Err(e) => {
                    return Err(e);
                },
            }
        }
        Ok((url, headers))
    }
}

/// Keep-alive: in an open session a received ping makes a pong due, and
/// sending the pong, which an open session accepts, settles it.
pub proof fn lemma_ping_then_pong(s: Session, r: Result<InboundMessage, ClientError>)
    requires
        s.open,
        r matches Ok(InboundMessage::Ping { .. }),
    ensures
        session_after_receive(s, r).open,
        session_after_receive(s, r).pong_due,
        session_after_send(session_after_receive(s, r), WsOutMessage::Pong).open,
        !session_after_send(session_after_receive(s, r), WsOutMessage::Pong).pong_due,
{
}

} // verus!
