use bitmax::auth::BitMaxClient;
use bitmax::encode::{json_body, query_pairs};
use bitmax::error::ClientError;
use bitmax::model::{AccountType, Interval, OrderSide, OrderType, TimeInForce};
use bitmax::request::{
    Balance, Barhist, CancelAllOrders, Method, OrderHistory, PlaceOrder, ResponseInstruction,
    Tickers, Trades,
};
use bitmax::Fixed9;

fn pairs(v: &[(&str, &str)]) -> Vec<(String, String)> {
    v.iter().map(|(a, b)| (a.to_string(), b.to_string())).collect()
}

fn authed(group: Option<u32>) -> BitMaxClient {
    BitMaxClient::with_auth("pub", "c2VjcmV0", group).unwrap()
}

#[test]
fn get_query_omits_absent_fields() {
    let t = Trades { symbol: "BNB/USDT".to_string(), number: None };
    assert_eq!(query_pairs(&t.params()), pairs(&[("symbol", "BNB/USDT")]));
    let t = Trades { symbol: "BNB/USDT".to_string(), number: Some(10) };
    assert_eq!(query_pairs(&t.params()), pairs(&[("symbol", "BNB/USDT"), ("n", "10")]));
}

#[test]
fn get_call_carries_query_in_url() {
    let t = Trades { symbol: "BNB/USDT".to_string(), number: None };
    let call = BitMaxClient::new().prepare_at(&t.endpoint(), &t.params(), 1).unwrap();
    assert_eq!(call.method, Method::Get);
    assert_eq!(call.url, "https://bitmax.io/api/pro/v1/trades?symbol=BNB%2FUSDT");
    assert!(call.body.is_none());
    assert_eq!(call.headers, pairs(&[("user-agent", "bitmax-rs")]));
}

#[test]
fn lists_join_with_commas() {
    let t = Tickers { symbols: vec!["A/B".to_string(), "C/D".to_string()] };
    assert_eq!(query_pairs(&t.params()), pairs(&[("symbol", "A/B,C/D")]));
    assert_eq!(json_body(&t.params()), r#"{"symbol":["A/B","C/D"]}"#);
}

#[test]
fn bar_history_query_fields() {
    let b = Barhist {
        symbol: "BTC/USDT".to_string(),
        interval: Interval::T1d,
        from: Some(-3),
        to: None,
        n: Some(500),
    };
    assert_eq!(
        query_pairs(&b.params()),
        pairs(&[("symbol", "BTC/USDT"), ("interval", "1d"), ("from", "-3"), ("n", "500")])
    );
}

#[test]
fn account_scoped_call_has_group_and_account_segment() {
    let b = Balance { account_type: AccountType::Cash, asset: None, show_all: false };
    let call = authed(Some(7)).prepare_at(&b.endpoint(), &b.params(), 1600000000000).unwrap();
    assert_eq!(call.url, "https://bitmax.io/api/pro/v1/7/cash/balance?showAll=false");
    assert_eq!(call.headers.len(), 4);
    assert_eq!(call.headers[2], ("x-auth-timestamp".to_string(), "1600000000000".to_string()));
    assert_eq!(
        call.headers[3],
        ("x-auth-signature".to_string(), "jK60w7RU1SUcIBKT/tKevV3mGbom+yDTZSPS9LFAiq4=".to_string())
    );
}

#[test]
fn missing_account_group_is_refused() {
    let b = Balance { account_type: AccountType::Margin, asset: None, show_all: true };
    assert!(matches!(authed(None).prepare_at(&b.endpoint(), &b.params(), 1), Err(ClientError::MissingAccountGroup)));
    assert!(matches!(BitMaxClient::new().prepare_at(&b.endpoint(), &b.params(), 1), Err(ClientError::MissingAccountGroup)));
}

#[test]
fn missing_credentials_are_refused() {
    let r = bitmax::request::AccountInfo {};
    assert!(matches!(BitMaxClient::new().prepare_at(&r.endpoint(), &r.params(), 1), Err(ClientError::MissingAuth)));
}

#[test]
fn post_sends_json_body_without_absent_fields() {
    let o = PlaceOrder {
        account_type: AccountType::Margin,
        symbol: "BTC/USDT".to_string(),
        time: 1600000000000,
        order_qty: Fixed9::parse("0.5").unwrap(),
        order_type: OrderType::Limit,
        side: OrderSide::Buy,
        id: None,
        order_price: Some(Fixed9::parse("10000").unwrap()),
        stop_price: None,
        post_only: Some(true),
        time_in_force: TimeInForce::GTC,
        resp_inst: ResponseInstruction::Acknowledged,
    };
    let call = authed(Some(2)).prepare_at(&o.endpoint(), &o.params(), 1).unwrap();
    assert_eq!(call.method, Method::Post);
    assert_eq!(call.url, "https://bitmax.io/api/pro/v1/2/margin/order");
    assert_eq!(
        call.body.unwrap(),
        r#"{"symbol":"BTC/USDT","time":1600000000000,"orderQty":"0.500000000","orderType":"limit","side":"buy","orderPrice":"10000.000000000","postOnly":true,"timeInForce":"GTC","respInst":"ACK"}"#
    );
    assert_eq!(call.headers[0], ("content-type".to_string(), "application/json".to_string()));
    assert_eq!(call.headers[1], ("user-agent".to_string(), "bitmax-rs".to_string()));
    assert_eq!(call.headers.len(), 5);
}

#[test]
fn delete_with_no_present_fields_sends_empty_object() {
    let c = CancelAllOrders { account_type: AccountType::Cash, symbol: None };
    let call = authed(Some(1)).prepare_at(&c.endpoint(), &c.params(), 1).unwrap();
    assert_eq!(call.method, Method::Delete);
    assert_eq!(call.url, "https://bitmax.io/api/pro/v1/1/cash/order/all");
    assert_eq!(call.body.unwrap(), "{}");
}

#[test]
fn json_strings_are_escaped() {
    let t = Trades { symbol: "a\"b\\c".to_string(), number: None };
    assert_eq!(json_body(&t.params()), r#"{"symbol":"a\"b\\c"}"#);
}

#[test]
fn order_history_sends_category() {
    let h = OrderHistory {
        account_type: AccountType::Margin,
        symbol: None,
        order_type: None,
        side: Some(OrderSide::Sell),
        status: Some(bitmax::model::OrderStatus::Filled),
        start_time: None,
        end_time: None,
        page: Some(2),
        page_size: None,
    };
    let e = h.endpoint();
    assert_eq!(e.render_endpoint(), "/order/hist");
    assert_eq!(
        query_pairs(&h.params()),
        pairs(&[("category", "margin"), ("side", "sell"), ("status", "Filled"), ("page", "2")])
    );
}

#[test]
fn wire_names_read_back() {
    assert_eq!(AccountType::from_wire("CASH"), Some(AccountType::Cash));
    assert_eq!(AccountType::from_wire("margin"), Some(AccountType::Margin));
    assert_eq!(AccountType::from_wire("Cash"), None);
    assert_eq!(OrderType::from_wire("Market"), Some(OrderType::Market));
    assert_eq!(Interval::T1M.as_wire(), "1m");
    assert_eq!(Interval::from_wire("1m"), Some(Interval::T1M));
    assert_eq!(AccountType::default(), AccountType::Cash);
}
