//! Requests to the REST API: for each operation its route, whether it needs
//! credentials or the account group, and its parameters; and the assembly of
//! an HTTP call from them.
use vstd::prelude::*;
use vstd::string::StringExecFns;

use crate::auth::{auth_headers_spec, headers_view, Auth, BitMaxClient};
use crate::digits::{nat_digits, push_digits};
use crate::encode::{
    json_body, json_object, params_view, query_pairs, query_pairs_spec, strings_view, Param,
    ParamValue, ValueView,
};
use crate::error::ClientError;
use crate::fixed9::Fixed9;
use crate::model;
use crate::model::{AccountType, Interval, OrderSide, OrderType, TimeInForce, TransactionType};
use crate::text::owned;

verus! {

/// HTTP verb of a request.
#[derive(Copy, Clone, Debug, PartialEq, Eq, Structural)]
pub enum Method {
    Get,
    Post,
    Delete,
}

/// The routing facts of one kind of request.
#[derive(Copy, Clone, Debug)]
pub struct Endpoint {
    pub method: Method,
    /// The URL starts with `/<account group>`.
    pub needs_account_group: bool,
    /// The call carries signing headers.
    pub needs_auth: bool,
    /// The canonical path, which is also what gets signed.
    pub api_path: &'static str,
    /// Inserts `/cash` or `/margin` before the path.
    pub account_type: Option<AccountType>,
}

/// How much the server reports back when an order is placed.
#[derive(Copy, Clone, Debug, PartialEq, Eq, Structural)]
pub enum ResponseInstruction {
    Acknowledged,
    Accept,
    Done,
}

impl ResponseInstruction {
    pub open spec fn wire_name(self) -> Seq<char> {
        match self {
            ResponseInstruction::Acknowledged => "ACK"@,
            ResponseInstruction::Accept => "ACCEPT"@,
            ResponseInstruction::Done => "DONE"@,
        }
    }

    pub fn as_wire(self) -> (r: &'static str)
        ensures
            r@ == self.wire_name(),
    {
        match self {
            ResponseInstruction::Acknowledged => "ACK",
            ResponseInstruction::Accept => "ACCEPT",
            ResponseInstruction::Done => "DONE",
        }
    }
}

pub open spec fn opt_text_view(o: Option<String>) -> ValueView {
    match o {
        Some(s) => ValueView::Text(s@),
        None => ValueView::Absent,
    }
}

fn text_param(name: &'static str, s: &String) -> (r: Param)
    ensures
        r.name == name,
        r.value matches ParamValue::Text(t) && t@ == s@,
{
    Param { name, value: ParamValue::Text(s.clone()) }
}

fn opt_text_param(name: &'static str, s: &Option<String>) -> (r: Param)
    ensures
        r.name == name,
        crate::encode::value_view(r.value) == opt_text_view(*s),
{
    match s {
        Some(t) => Param { name, value: ParamValue::Text(t.clone()) },
        None => Param { name, value: ParamValue::Absent },
    }
}

fn wire_param(name: &'static str, w: &'static str) -> (r: Param)
    ensures
        r.name == name,
        r.value matches ParamValue::Text(t) && t@ == w@,
{
    Param { name, value: ParamValue::Text(owned(w)) }
}

fn list_param(name: &'static str, items: &Vec<String>) -> (r: Param)
    ensures
        r.name == name,
        r.value matches ParamValue::List(l) && strings_view(l@) == strings_view(items@),
{
    let mut l: Vec<String> = Vec::new();
    let mut i: usize = 0;
    while i < items.len()
        invariant
            i <= items@.len(),
            strings_view(l@) == strings_view(items@).take(i as int),
        decreases items@.len() - i,
    {
        let ghost before = l@;
        let c = items[i].clone();
        l.push(c);
        assert(l@ == before.push(c));
        assert(strings_view(l@) =~= strings_view(before).push(c@));
        assert(strings_view(l@) =~= strings_view(items@).take(i + 1));
        i = i + 1;
    }
    assert(strings_view(items@).take(items@.len() as int) =~= strings_view(items@));
    Param { name, value: ParamValue::List(l) }
}

/// `/cash` or `/margin` (when the request names an account type) followed by
/// the canonical path.
pub open spec fn endpoint_path(e: Endpoint) -> Seq<char> {
    match e.account_type {
        None => e.api_path@,
        Some(AccountType::Cash) => "/cash"@ + e.api_path@,
        Some(AccountType::Margin) => "/margin"@ + e.api_path@,
    }
}

/// The URL without its query: host and API root, then the account group if
/// needed, then the path. Nothing when the account group is needed and unknown.
pub open spec fn base_url_spec(auth: Option<Auth>, e: Endpoint) -> Option<Seq<char>> {
    if e.needs_account_group {
        match auth {
            Some(a) => match a.account_group {
                Some(g) => Some(
                    "https://bitmax.io/api/pro/v1/"@ + nat_digits(g as nat) + endpoint_path(e),
                ),
                None => None,
            },
            None => None,
        }
    } else {
        Some("https://bitmax.io/api/pro/v1"@ + endpoint_path(e))
    }
}

/// The URL that url's `Url::parse_with_params` writes for a base and query
/// pairs, or nothing when the base is not an absolute URL.
pub uninterp spec fn url_with_query(base: Seq<char>, pairs: Seq<(Seq<char>, Seq<char>)>) -> Option<
    Seq<char>,
>;

/// Relies on url's `Url::parse_with_params` followed by `Url::as_str`: the
/// result depends on the base and the pairs alone.
#[verifier::external_body]
fn url_with_params(base: &str, pairs: &Vec<(String, String)>) -> (r: Option<String>)
    ensures
        match r {
            Some(u) => url_with_query(base@, headers_view(pairs@)) == Some(u@),
            None => url_with_query(base@, headers_view(pairs@)) is None,
        },
{
    url::Url::parse_with_params(base, pairs.iter()).ok().map(String::from)
}

/// The full URL of a call: for GET the query of the present parameters is
/// added.
pub open spec fn url_spec(auth: Option<Auth>, e: Endpoint, ps: Seq<(Seq<char>, ValueView)>) -> Option<
    Seq<char>,
> {
    match base_url_spec(auth, e) {
        None => None,
        Some(b) => if e.method == Method::Get {
            url_with_query(b, query_pairs_spec(ps))
        } else {
            Some(b)
        },
    }
}

/// Headers without signing: a JSON content type for bodies, and the user agent.
pub open spec fn base_headers(e: Endpoint) -> Seq<(Seq<char>, Seq<char>)> {
    if e.method == Method::Get {
        seq![("user-agent"@, "bitmax-rs"@)]
    } else {
        seq![("content-type"@, "application/json"@), ("user-agent"@, "bitmax-rs"@)]
    }
}

/// All headers of a call; signing covers the canonical path only.
pub open spec fn call_headers(auth: Option<Auth>, e: Endpoint, timestamp: int) -> Seq<
    (Seq<char>, Seq<char>),
> {
    if e.needs_auth {
        base_headers(e) + auth_headers_spec(auth->Some_0, e.api_path@, timestamp)
    } else {
        base_headers(e)
    }
}

/// GET sends no body; POST and DELETE send the JSON object of the parameters.
pub open spec fn call_body(e: Endpoint, ps: Seq<(Seq<char>, ValueView)>) -> Option<Seq<char>> {
    if e.method == Method::Get {
        None
    } else {
        Some(json_object(ps))
    }
}

pub open spec fn body_view(b: Option<String>) -> Option<Seq<char>> {
    match b {
        Some(s) => Some(s@),
        None => None,
    }
}

/// An HTTP call ready to send.
#[derive(Debug)]
pub struct HttpCall {
    pub method: Method,
    pub url: String,
    pub body: Option<String>,
    pub headers: Vec<(String, String)>,
}

/// What assembling a call yields: the account group error, then a URL error,
/// then a missing-credentials error, else the call.
pub open spec fn prepared(
    auth: Option<Auth>,
    e: Endpoint,
    ps: Seq<(Seq<char>, ValueView)>,
    timestamp: int,
    r: Result<HttpCall, ClientError>,
) -> bool {
    match url_spec(auth, e, ps) {
        None => if base_url_spec(auth, e) is None {
            r matches Err(ClientError::MissingAccountGroup)
        } else {
            r matches Err(ClientError::InvalidUrl)
        },
        Some(u) => if e.needs_auth && auth is None {
            r matches Err(ClientError::MissingAuth)
        } else {
            &&& r is Ok
            &&& r->Ok_0.method == e.method
            &&& r->Ok_0.url@ == u
            &&& body_view(r->Ok_0.body) == call_body(e, ps)
            &&& headers_view(r->Ok_0.headers@) == call_headers(auth, e, timestamp)
        },
    }
}

impl Endpoint {
    /// The path after the API root: account type segment, then the path.
    pub fn render_endpoint(&self) -> (r: String)
        ensures
            r@ == endpoint_path(*self),
    {
        let mut s = String::new();
        match self.account_type {
            None => {},
            Some(AccountType::Cash) => s.append("/cash"),
            Some(AccountType::Margin) => s.append("/margin"),
        }
        s.append(self.api_path);
        assert(s@ =~= endpoint_path(*self));
        s
    }
}

fn header(name: &str, value: &str) -> (r: (String, String))
    ensures
        r.0@ == name@,
        r.1@ == value@,
{
    (owned(name), owned(value))
}

impl BitMaxClient {
    /// The URL without its query; fails when the account group is needed
    /// and unknown.
    pub fn base_url(&self, endpoint: &Endpoint) -> (r: Result<String, ClientError>)
        ensures
            match base_url_spec(self.auth, *endpoint) {
                Some(u) => r is Ok && r->Ok_0@ == u,
                None => r matches Err(ClientError::MissingAccountGroup),
            },
    {
        let path = endpoint.render_endpoint();
        let mut s = String::new();
        s.append("https://bitmax.io/api/pro/v1");
        if endpoint.needs_account_group {
            let group = match &self.auth {
                Some(a) => a.account_group,
                None => None,
            };
            match group {
                None => {
                    return Err(ClientError::MissingAccountGroup);
                },
                Some(g) => {
                    s.push('/');
                    push_digits(&mut s, g as u64);
                },
            }
        }
        s.append(path.as_str());
        proof {
            reveal_strlit("https://bitmax.io/api/pro/v1");
            reveal_strlit("https://bitmax.io/api/pro/v1/");
        }
        assert(s@ =~= base_url_spec(self.auth, *endpoint)->Some_0);
        Ok(s)
    }

    /// Assembles the HTTP call for a request at `timestamp` (milliseconds):
    /// URL with account group and account type, query or JSON body by verb,
    /// user agent, and signing headers over the canonical path.
    pub fn prepare_at(&self, endpoint: &Endpoint, params: &Vec<Param>, timestamp: i64) -> (r:
        Result<HttpCall, ClientError>)
        ensures
            prepared(self.auth, *endpoint, params_view(params@), timestamp as int, r),
    {
        let base = match self.base_url(endpoint) {
            Ok(b) => b,
            Err(e) => {
                return Err(e);
            },
        };
        let mut headers: Vec<(String, String)> = Vec::new();
        let (url, body) = match endpoint.method {
            Method::Get => {
                let pairs = query_pairs(params);
                match url_with_params(base.as_str(), &pairs) {
                    Some(u) => (u, None),
                    None => {
                        return Err(ClientError::InvalidUrl);
                    },
                }
            },
            _ => {
                headers.push(header("content-type", "application/json"));
                (base, Some(json_body(params)))
            },
        };
        headers.push(header("user-agent", "bitmax-rs"));
        assert(headers_view(headers@) =~= base_headers(*endpoint));
        if endpoint.needs_auth {
            match self.attach_auth_headers(&mut headers, endpoint.api_path, timestamp) {
                Ok(()) => {},
                Err(e) => {
                    return Err(e);
                },
            }
        }
        Ok(HttpCall { method: endpoint.method, url, body, headers })
    }

    /// Assembles the HTTP call for a request, signed with the current time.
    pub fn prepare(&self, endpoint: &Endpoint, params: &Vec<Param>) -> (r: Result<
        HttpCall,
        ClientError,
    >)
        ensures
            exists|t: i64| prepared(self.auth, *endpoint, params_view(params@), t as int, r),
    {
        let t = now_millis();
        self.prepare_at(endpoint, params, t)
    }
}

/// Relies on chrono's `Utc::now` and `timestamp_millis`: the current time in
/// milliseconds since the epoch. Nothing is known of its value.
#[verifier::external_body]
fn now_millis() -> i64 {
    chrono::Utc::now().timestamp_millis()
}

/// All assets listed on the exchange.
#[derive(Clone, Debug)]
pub struct Assets {
}

impl Assets {

    pub fn endpoint(&self) -> (r: Endpoint)
        ensures
            r == (Endpoint {
                method: Method::Get,
                needs_account_group: false,
                needs_auth: false,
                api_path: "/assets",
                account_type: None,
            }),
    {
        Endpoint {
            method: Method::Get,
            needs_account_group: false,
            needs_auth: false,
            api_path: "/assets",
            account_type: None,
        }
    }


    /// The parameters: none.
    pub open spec fn params_spec(&self) -> Seq<(Seq<char>, ValueView)> {
        Seq::empty()
    }

    pub fn params(&self) -> (r: Vec<Param>)
        ensures
            params_view(r@) == self.params_spec(),
    {
        let v: Vec<Param> = Vec::new();
        assert(params_view(v@) =~= self.params_spec());
        v
    }
}

/// All products traded on the exchange.
#[derive(Clone, Debug)]
pub struct Products {
}

impl Products {

    pub fn endpoint(&self) -> (r: Endpoint)
        ensures
            r == (Endpoint {
                method: Method::Get,
                needs_account_group: false,
                needs_auth: false,
                api_path: "/products",
                account_type: None,
            }),
    {
        Endpoint {
            method: Method::Get,
            needs_account_group: false,
            needs_auth: false,
            api_path: "/products",
            account_type: None,
        }
    }


    /// The parameters: none.
    pub open spec fn params_spec(&self) -> Seq<(Seq<char>, ValueView)> {
        Seq::empty()
    }

    pub fn params(&self) -> (r: Vec<Param>)
        ensures
            params_view(r@) == self.params_spec(),
    {
        let v: Vec<Param> = Vec::new();
        assert(params_view(v@) =~= self.params_spec());
        v
    }
}

/// Summary statistics of one symbol.
#[derive(Clone, Debug)]
pub struct Ticker {
    pub symbol: String,
}

impl Ticker {

    pub fn endpoint(&self) -> (r: Endpoint)
        ensures
            r == (Endpoint {
                method: Method::Get,
                needs_account_group: false,
                needs_auth: false,
                api_path: "/ticker",
                account_type: None,
            }),
    {
        Endpoint {
            method: Method::Get,
            needs_account_group: false,
            needs_auth: false,
            api_path: "/ticker",
            account_type: None,
        }
    }


    /// The parameters, in wire order.
    pub open spec fn params_spec(&self) -> Seq<(Seq<char>, ValueView)> {
        seq![
            ("symbol"@, ValueView::Text(self.symbol@)),
        ]
    }

    pub fn params(&self) -> (r: Vec<Param>)
        ensures
            params_view(r@) == self.params_spec(),
    {
        let mut v: Vec<Param> = Vec::new();
        v.push(text_param("symbol", &self.symbol));
        assert(params_view(v@) =~= self.params_spec());
        v
    }
}

/// Summary statistics of several symbols.
#[derive(Clone, Debug)]
pub struct Tickers {
    pub symbols: Vec<String>,
}

impl Tickers {

    pub fn endpoint(&self) -> (r: Endpoint)
        ensures
            r == (Endpoint {
                method: Method::Get,
                needs_account_group: false,
                needs_auth: false,
                api_path: "/ticker",
                account_type: None,
            }),
    {
        Endpoint {
            method: Method::Get,
            needs_account_group: false,
            needs_auth: false,
            api_path: "/ticker",
            account_type: None,
        }
    }


    /// The parameters, in wire order.
    pub open spec fn params_spec(&self) -> Seq<(Seq<char>, ValueView)> {
        seq![
            ("symbol"@, ValueView::List(strings_view(self.symbols@))),
        ]
    }

    pub fn params(&self) -> (r: Vec<Param>)
        ensures
            params_view(r@) == self.params_spec(),
    {
        let mut v: Vec<Param> = Vec::new();
        v.push(list_param("symbol", &self.symbols));
        assert(params_view(v@) =~= self.params_spec());
        v
    }
}

/// Summary statistics of all symbols.
#[derive(Clone, Debug)]
pub struct AllTickers {
}

impl AllTickers {

    pub fn endpoint(&self) -> (r: Endpoint)
        ensures
            r == (Endpoint {
                method: Method::Get,
                needs_account_group: false,
                needs_auth: false,
                api_path: "/ticker",
                account_type: None,
            }),
    {
        Endpoint {
            method: Method::Get,
            needs_account_group: false,
            needs_auth: false,
            api_path: "/ticker",
            account_type: None,
        }
    }


    /// The parameters: none.
    pub open spec fn params_spec(&self) -> Seq<(Seq<char>, ValueView)> {
        Seq::empty()
    }

    pub fn params(&self) -> (r: Vec<Param>)
        ensures
            params_view(r@) == self.params_spec(),
    {
        let v: Vec<Param> = Vec::new();
        assert(params_view(v@) =~= self.params_spec());
        v
    }
}

/// The bar intervals that the server supports.
#[derive(Clone, Debug)]
pub struct BarhistInfo {
}

impl BarhistInfo {

    pub fn endpoint(&self) -> (r: Endpoint)
        ensures
            r == (Endpoint {
                method: Method::Get,
                needs_account_group: false,
                needs_auth: false,
                api_path: "/barhist/info",
                account_type: None,
            }),
    {
        Endpoint {
            method: Method::Get,
            needs_account_group: false,
            needs_auth: false,
            api_path: "/barhist/info",
            account_type: None,
        }
    }


    /// The parameters: none.
    pub open spec fn params_spec(&self) -> Seq<(Seq<char>, ValueView)> {
        Seq::empty()
    }

    pub fn params(&self) -> (r: Vec<Param>)
        ensures
            params_view(r@) == self.params_spec(),
    {
        let v: Vec<Param> = Vec::new();
        assert(params_view(v@) =~= self.params_spec());
        v
    }
}

/// Price bars of a symbol. `from` and `to` are the start times (ms) of
/// the first and last bar; `n` asks for the most recent bars.
#[derive(Clone, Debug)]
pub struct Barhist {
    pub symbol: String,
    pub interval: Interval,
    pub from: Option<i64>,
    pub to: Option<i64>,
    pub n: Option<u32>,
}

impl Barhist {

    pub fn endpoint(&self) -> (r: Endpoint)
        ensures
            r == (Endpoint {
                method: Method::Get,
                needs_account_group: false,
                needs_auth: false,
                api_path: "/barhist",
                account_type: None,
            }),
    {
        Endpoint {
            method: Method::Get,
            needs_account_group: false,
            needs_auth: false,
            api_path: "/barhist",
            account_type: None,
        }
    }


    /// The parameters, in wire order.
    pub open spec fn params_spec(&self) -> Seq<(Seq<char>, ValueView)> {
        seq![
            ("symbol"@, ValueView::Text(self.symbol@)),
                ("interval"@, ValueView::Text(self.interval.wire_name())),
                ("from"@, (match self.from { Some(x) => ValueView::Int(x as int), None => ValueView::Absent })),
                ("to"@, (match self.to { Some(x) => ValueView::Int(x as int), None => ValueView::Absent })),
                ("n"@, (match self.n { Some(x) => ValueView::Int(x as int), None => ValueView::Absent })),
        ]
    }

    pub fn params(&self) -> (r: Vec<Param>)
        ensures
            params_view(r@) == self.params_spec(),
    {
        let mut v: Vec<Param> = Vec::new();
        v.push(text_param("symbol", &self.symbol));
        v.push(wire_param("interval", self.interval.as_wire()));
        v.push(match self.from {
            Some(x) => Param { name: "from", value: ParamValue::Int(x as i64) },
            None => Param { name: "from", value: ParamValue::Absent },
        });
        v.push(match self.to {
            Some(x) => Param { name: "to", value: ParamValue::Int(x as i64) },
            None => Param { name: "to", value: ParamValue::Absent },
        });
        v.push(match self.n {
            Some(x) => Param { name: "n", value: ParamValue::Int(x as i64) },
            None => Param { name: "n", value: ParamValue::Absent },
        });
        assert(params_view(v@) =~= self.params_spec());
        v
    }
}

/// The order book of a symbol.
#[derive(Clone, Debug)]
pub struct OrderDepth {
    pub symbol: String,
}

impl OrderDepth {

    pub fn endpoint(&self) -> (r: Endpoint)
        ensures
            r == (Endpoint {
                method: Method::Get,
                needs_account_group: false,
                needs_auth: false,
                api_path: "/depth",
                account_type: None,
            }),
    {
        Endpoint {
            method: Method::Get,
            needs_account_group: false,
            needs_auth: false,
            api_path: "/depth",
            account_type: None,
        }
    }


    /// The parameters, in wire order.
    pub open spec fn params_spec(&self) -> Seq<(Seq<char>, ValueView)> {
        seq![
            ("symbol"@, ValueView::Text(self.symbol@)),
        ]
    }

    pub fn params(&self) -> (r: Vec<Param>)
        ensures
            params_view(r@) == self.params_spec(),
    {
        let mut v: Vec<Param> = Vec::new();
        v.push(text_param("symbol", &self.symbol));
        assert(params_view(v@) =~= self.params_spec());
        v
    }
}

/// Recent trades of a symbol; `number` is capped at 100 by the server.
#[derive(Clone, Debug)]
pub struct Trades {
    pub symbol: String,
    pub number: Option<u8>,
}

impl Trades {

    pub fn endpoint(&self) -> (r: Endpoint)
        ensures
            r == (Endpoint {
                method: Method::Get,
                needs_account_group: false,
                needs_auth: false,
                api_path: "/trades",
                account_type: None,
            }),
    {
        Endpoint {
            method: Method::Get,
            needs_account_group: false,
            needs_auth: false,
            api_path: "/trades",
            account_type: None,
        }
    }


    /// The parameters, in wire order.
    pub open spec fn params_spec(&self) -> Seq<(Seq<char>, ValueView)> {
        seq![
            ("symbol"@, ValueView::Text(self.symbol@)),
                ("n"@, (match self.number { Some(x) => ValueView::Int(x as int), None => ValueView::Absent })),
        ]
    }

    pub fn params(&self) -> (r: Vec<Param>)
        ensures
            params_view(r@) == self.params_spec(),
    {
        let mut v: Vec<Param> = Vec::new();
        v.push(text_param("symbol", &self.symbol));
        v.push(match self.number {
            Some(x) => Param { name: "n", value: ParamValue::Int(x as i64) },
            None => Param { name: "n", value: ParamValue::Absent },
        });
        assert(params_view(v@) =~= self.params_spec());
        v
    }
}

/// The account's identity and permissions.
#[derive(Clone, Debug)]
pub struct AccountInfo {
}

impl AccountInfo {

    pub fn endpoint(&self) -> (r: Endpoint)
        ensures
            r == (Endpoint {
                method: Method::Get,
                needs_account_group: false,
                needs_auth: true,
                api_path: "/info",
                account_type: None,
            }),
    {
        Endpoint {
            method: Method::Get,
            needs_account_group: false,
            needs_auth: true,
            api_path: "/info",
            account_type: None,
        }
    }


    /// The parameters: none.
    pub open spec fn params_spec(&self) -> Seq<(Seq<char>, ValueView)> {
        Seq::empty()
    }

    pub fn params(&self) -> (r: Vec<Param>)
        ensures
            params_view(r@) == self.params_spec(),
    {
        let v: Vec<Param> = Vec::new();
        assert(params_view(v@) =~= self.params_spec());
        v
    }
}

/// Balances of one account type; `show_all` includes empty ones.
#[derive(Clone, Debug)]
pub struct Balance {
    pub account_type: AccountType,
    pub asset: Option<String>,
    pub show_all: bool,
}

impl Balance {

    pub fn endpoint(&self) -> (r: Endpoint)
        ensures
            r == (Endpoint {
                method: Method::Get,
                needs_account_group: true,
                needs_auth: true,
                api_path: "/balance",
                account_type: Some(self.account_type),
            }),
    {
        Endpoint {
            method: Method::Get,
            needs_account_group: true,
            needs_auth: true,
            api_path: "/balance",
            account_type: Some(self.account_type),
        }
    }


    /// The parameters, in wire order.
    pub open spec fn params_spec(&self) -> Seq<(Seq<char>, ValueView)> {
        seq![
            ("asset"@, opt_text_view(self.asset)),
                ("showAll"@, ValueView::Flag(self.show_all)),
        ]
    }

    pub fn params(&self) -> (r: Vec<Param>)
        ensures
            params_view(r@) == self.params_spec(),
    {
        let mut v: Vec<Param> = Vec::new();
        v.push(opt_text_param("asset", &self.asset));
        v.push(Param { name: "showAll", value: ParamValue::Flag(self.show_all) });
        assert(params_view(v@) =~= self.params_spec());
        v
    }
}

/// Risk figures of the margin account.
#[derive(Clone, Debug)]
pub struct MarginRisk {
}

impl MarginRisk {

    pub fn endpoint(&self) -> (r: Endpoint)
        ensures
            r == (Endpoint {
                method: Method::Get,
                needs_account_group: true,
                needs_auth: true,
                api_path: "/margin/risk",
                account_type: None,
            }),
    {
        Endpoint {
            method: Method::Get,
            needs_account_group: true,
            needs_auth: true,
            api_path: "/margin/risk",
            account_type: None,
        }
    }


    /// The parameters: none.
    pub open spec fn params_spec(&self) -> Seq<(Seq<char>, ValueView)> {
        Seq::empty()
    }

    pub fn params(&self) -> (r: Vec<Param>)
        ensures
            params_view(r@) == self.params_spec(),
    {
        let v: Vec<Param> = Vec::new();
        assert(params_view(v@) =~= self.params_spec());
        v
    }
}

/// Moves an amount of an asset between the cash and margin accounts.
#[derive(Clone, Debug)]
pub struct SelfTransfer {
    pub amount: Fixed9,
    pub asset: String,
    pub from_account: AccountType,
    pub to_account: AccountType,
}

impl SelfTransfer {

    pub fn endpoint(&self) -> (r: Endpoint)
        ensures
            r == (Endpoint {
                method: Method::Post,
                needs_account_group: true,
                needs_auth: true,
                api_path: "/transfer",
                account_type: None,
            }),
    {
        Endpoint {
            method: Method::Post,
            needs_account_group: true,
            needs_auth: true,
            api_path: "/transfer",
            account_type: None,
        }
    }


    /// The parameters, in wire order.
    pub open spec fn params_spec(&self) -> Seq<(Seq<char>, ValueView)> {
        seq![
            ("amount"@, ValueView::Decimal(self.amount.0 as int)),
                ("asset"@, ValueView::Text(self.asset@)),
                ("fromAccount"@, ValueView::Text(self.from_account.wire_name())),
                ("toAccount"@, ValueView::Text(self.to_account.wire_name())),
        ]
    }

    pub fn params(&self) -> (r: Vec<Param>)
        ensures
            params_view(r@) == self.params_spec(),
    {
        let mut v: Vec<Param> = Vec::new();
        v.push(Param { name: "amount", value: ParamValue::Decimal(self.amount) });
        v.push(text_param("asset", &self.asset));
        v.push(wire_param("fromAccount", self.from_account.as_wire()));
        v.push(wire_param("toAccount", self.to_account.as_wire()));
        assert(params_view(v@) =~= self.params_spec());
        v
    }
}

/// Deposit addresses of an asset.
#[derive(Clone, Debug)]
pub struct DepositAddress {
    pub asset: String,
    pub blockchain: Option<String>,
}

impl DepositAddress {

    pub fn endpoint(&self) -> (r: Endpoint)
        ensures
            r == (Endpoint {
                method: Method::Get,
                needs_account_group: false,
                needs_auth: true,
                api_path: "/wallet/deposit/address",
                account_type: None,
            }),
    {
        Endpoint {
            method: Method::Get,
            needs_account_group: false,
            needs_auth: true,
            api_path: "/wallet/deposit/address",
            account_type: None,
        }
    }


    /// The parameters, in wire order.
    pub open spec fn params_spec(&self) -> Seq<(Seq<char>, ValueView)> {
        seq![
            ("asset"@, ValueView::Text(self.asset@)),
                ("blockchain"@, opt_text_view(self.blockchain)),
        ]
    }

    pub fn params(&self) -> (r: Vec<Param>)
        ensures
            params_view(r@) == self.params_spec(),
    {
        let mut v: Vec<Param> = Vec::new();
        v.push(text_param("asset", &self.asset));
        v.push(opt_text_param("blockchain", &self.blockchain));
        assert(params_view(v@) =~= self.params_spec());
        v
    }
}

/// Wallet deposits and withdrawals, a page at a time (pages start at 1).
#[derive(Clone, Debug)]
pub struct TransactionHistory {
    pub asset: Option<String>,
    pub tx_type: Option<TransactionType>,
    pub page: Option<u32>,
    pub page_size: Option<u32>,
}

impl TransactionHistory {

    pub fn endpoint(&self) -> (r: Endpoint)
        ensures
            r == (Endpoint {
                method: Method::Get,
                needs_account_group: false,
                needs_auth: true,
                api_path: "/wallet/transactions",
                account_type: None,
            }),
    {
        Endpoint {
            method: Method::Get,
            needs_account_group: false,
            needs_auth: true,
            api_path: "/wallet/transactions",
            account_type: None,
        }
    }


    /// The parameters, in wire order.
    pub open spec fn params_spec(&self) -> Seq<(Seq<char>, ValueView)> {
        seq![
            ("asset"@, opt_text_view(self.asset)),
                ("txType"@, (match self.tx_type { Some(t) => ValueView::Text(t.wire_name()), None => ValueView::Absent })),
                ("page"@, (match self.page { Some(x) => ValueView::Int(x as int), None => ValueView::Absent })),
                ("pageSize"@, (match self.page_size { Some(x) => ValueView::Int(x as int), None => ValueView::Absent })),
        ]
    }

    pub fn params(&self) -> (r: Vec<Param>)
        ensures
            params_view(r@) == self.params_spec(),
    {
        let mut v: Vec<Param> = Vec::new();
        v.push(opt_text_param("asset", &self.asset));
        v.push(match self.tx_type {
            Some(t) => wire_param("txType", t.as_wire()),
            None => Param { name: "txType", value: ParamValue::Absent },
        });
        v.push(match self.page {
            Some(x) => Param { name: "page", value: ParamValue::Int(x as i64) },
            None => Param { name: "page", value: ParamValue::Absent },
        });
        v.push(match self.page_size {
            Some(x) => Param { name: "pageSize", value: ParamValue::Int(x as i64) },
            None => Param { name: "pageSize", value: ParamValue::Absent },
        });
        assert(params_view(v@) =~= self.params_spec());
        v
    }
}

/// Places an order.
#[derive(Clone, Debug)]
pub struct PlaceOrder {
    pub account_type: AccountType,
    pub symbol: String,
    pub time: i64,
    pub order_qty: Fixed9,
    pub order_type: OrderType,
    pub side: OrderSide,
    pub id: Option<String>,
    pub order_price: Option<Fixed9>,
    pub stop_price: Option<Fixed9>,
    pub post_only: Option<bool>,
    pub time_in_force: TimeInForce,
    pub resp_inst: ResponseInstruction,
}

impl PlaceOrder {

    pub fn endpoint(&self) -> (r: Endpoint)
        ensures
            r == (Endpoint {
                method: Method::Post,
                needs_account_group: true,
                needs_auth: true,
                api_path: "/order",
                account_type: Some(self.account_type),
            }),
    {
        Endpoint {
            method: Method::Post,
            needs_account_group: true,
            needs_auth: true,
            api_path: "/order",
            account_type: Some(self.account_type),
        }
    }


    /// The parameters, in wire order.
    pub open spec fn params_spec(&self) -> Seq<(Seq<char>, ValueView)> {
        seq![
            ("symbol"@, ValueView::Text(self.symbol@)),
                ("time"@, ValueView::Int(self.time as int)),
                ("orderQty"@, ValueView::Decimal(self.order_qty.0 as int)),
                ("orderType"@, ValueView::Text(self.order_type.wire_name())),
                ("side"@, ValueView::Text(self.side.wire_name())),
                ("id"@, opt_text_view(self.id)),
                ("orderPrice"@, (match self.order_price { Some(d) => ValueView::Decimal(d.0 as int), None => ValueView::Absent })),
                ("stopPrice"@, (match self.stop_price { Some(d) => ValueView::Decimal(d.0 as int), None => ValueView::Absent })),
                ("postOnly"@, (match self.post_only { Some(b) => ValueView::Flag(b), None => ValueView::Absent })),
                ("timeInForce"@, ValueView::Text(self.time_in_force.wire_name())),
                ("respInst"@, ValueView::Text(self.resp_inst.wire_name())),
        ]
    }

    pub fn params(&self) -> (r: Vec<Param>)
        ensures
            params_view(r@) == self.params_spec(),
    {
        let mut v: Vec<Param> = Vec::new();
        v.push(text_param("symbol", &self.symbol));
        v.push(Param { name: "time", value: ParamValue::Int(self.time) });
        v.push(Param { name: "orderQty", value: ParamValue::Decimal(self.order_qty) });
        v.push(wire_param("orderType", self.order_type.as_wire()));
        v.push(wire_param("side", self.side.as_wire()));
        v.push(opt_text_param("id", &self.id));
        v.push(match self.order_price {
            Some(d) => Param { name: "orderPrice", value: ParamValue::Decimal(d) },
            None => Param { name: "orderPrice", value: ParamValue::Absent },
        });
        v.push(match self.stop_price {
            Some(d) => Param { name: "stopPrice", value: ParamValue::Decimal(d) },
            None => Param { name: "stopPrice", value: ParamValue::Absent },
        });
        v.push(match self.post_only {
            Some(b) => Param { name: "postOnly", value: ParamValue::Flag(b) },
            None => Param { name: "postOnly", value: ParamValue::Absent },
        });
        v.push(wire_param("timeInForce", self.time_in_force.as_wire()));
        v.push(wire_param("respInst", self.resp_inst.as_wire()));
        assert(params_view(v@) =~= self.params_spec());
        v
    }
}

/// Cancels one order.
#[derive(Clone, Debug)]
pub struct CancelOrder {
    pub account_type: AccountType,
    pub id: Option<String>,
    pub order_id: String,
    pub symbol: String,
    pub time: i64,
}

impl CancelOrder {

    pub fn endpoint(&self) -> (r: Endpoint)
        ensures
            r == (Endpoint {
                method: Method::Delete,
                needs_account_group: true,
                needs_auth: true,
                api_path: "/order",
                account_type: Some(self.account_type),
            }),
    {
        Endpoint {
            method: Method::Delete,
            needs_account_group: true,
            needs_auth: true,
            api_path: "/order",
            account_type: Some(self.account_type),
        }
    }


    /// The parameters, in wire order.
    pub open spec fn params_spec(&self) -> Seq<(Seq<char>, ValueView)> {
        seq![
            ("id"@, opt_text_view(self.id)),
                ("orderId"@, ValueView::Text(self.order_id@)),
                ("symbol"@, ValueView::Text(self.symbol@)),
                ("time"@, ValueView::Int(self.time as int)),
        ]
    }

    pub fn params(&self) -> (r: Vec<Param>)
        ensures
            params_view(r@) == self.params_spec(),
    {
        let mut v: Vec<Param> = Vec::new();
        v.push(opt_text_param("id", &self.id));
        v.push(text_param("orderId", &self.order_id));
        v.push(text_param("symbol", &self.symbol));
        v.push(Param { name: "time", value: ParamValue::Int(self.time) });
        assert(params_view(v@) =~= self.params_spec());
        v
    }
}

/// Cancels all open orders, of one symbol if given.
#[derive(Clone, Debug)]
pub struct CancelAllOrders {
    pub account_type: AccountType,
    pub symbol: Option<String>,
}

impl CancelAllOrders {

    pub fn endpoint(&self) -> (r: Endpoint)
        ensures
            r == (Endpoint {
                method: Method::Delete,
                needs_account_group: true,
                needs_auth: true,
                api_path: "/order/all",
                account_type: Some(self.account_type),
            }),
    {
        Endpoint {
            method: Method::Delete,
            needs_account_group: true,
            needs_auth: true,
            api_path: "/order/all",
            account_type: Some(self.account_type),
        }
    }


    /// The parameters, in wire order.
    pub open spec fn params_spec(&self) -> Seq<(Seq<char>, ValueView)> {
        seq![
            ("symbol"@, opt_text_view(self.symbol)),
        ]
    }

    pub fn params(&self) -> (r: Vec<Param>)
        ensures
            params_view(r@) == self.params_spec(),
    {
        let mut v: Vec<Param> = Vec::new();
        v.push(opt_text_param("symbol", &self.symbol));
        assert(params_view(v@) =~= self.params_spec());
        v
    }
}

/// The status of one order.
#[derive(Clone, Debug)]
pub struct OrderStatus {
    pub account_type: AccountType,
    pub order_id: String,
}

impl OrderStatus {

    pub fn endpoint(&self) -> (r: Endpoint)
        ensures
            r == (Endpoint {
                method: Method::Get,
                needs_account_group: true,
                needs_auth: true,
                api_path: "/order/status",
                account_type: Some(self.account_type),
            }),
    {
        Endpoint {
            method: Method::Get,
            needs_account_group: true,
            needs_auth: true,
            api_path: "/order/status",
            account_type: Some(self.account_type),
        }
    }


    /// The parameters, in wire order.
    pub open spec fn params_spec(&self) -> Seq<(Seq<char>, ValueView)> {
        seq![
            ("orderId"@, ValueView::Text(self.order_id@)),
        ]
    }

    pub fn params(&self) -> (r: Vec<Param>)
        ensures
            params_view(r@) == self.params_spec(),
    {
        let mut v: Vec<Param> = Vec::new();
        v.push(text_param("orderId", &self.order_id));
        assert(params_view(v@) =~= self.params_spec());
        v
    }
}

/// The status of several orders.
#[derive(Clone, Debug)]
pub struct OrdersStatus {
    pub account_type: AccountType,
    pub order_id: Vec<String>,
}

impl OrdersStatus {

    pub fn endpoint(&self) -> (r: Endpoint)
        ensures
            r == (Endpoint {
                method: Method::Get,
                needs_account_group: true,
                needs_auth: true,
                api_path: "/order/status",
                account_type: Some(self.account_type),
            }),
    {
        Endpoint {
            method: Method::Get,
            needs_account_group: true,
            needs_auth: true,
            api_path: "/order/status",
            account_type: Some(self.account_type),
        }
    }


    /// The parameters, in wire order.
    pub open spec fn params_spec(&self) -> Seq<(Seq<char>, ValueView)> {
        seq![
            ("orderId"@, ValueView::List(strings_view(self.order_id@))),
        ]
    }

    pub fn params(&self) -> (r: Vec<Param>)
        ensures
            params_view(r@) == self.params_spec(),
    {
        let mut v: Vec<Param> = Vec::new();
        v.push(list_param("orderId", &self.order_id));
        assert(params_view(v@) =~= self.params_spec());
        v
    }
}

/// All open orders.
#[derive(Clone, Debug)]
pub struct OpenOrders {
    pub account_type: AccountType,
}

impl OpenOrders {

    pub fn endpoint(&self) -> (r: Endpoint)
        ensures
            r == (Endpoint {
                method: Method::Get,
                needs_account_group: true,
                needs_auth: true,
                api_path: "/order/open",
                account_type: Some(self.account_type),
            }),
    {
        Endpoint {
            method: Method::Get,
            needs_account_group: true,
            needs_auth: true,
            api_path: "/order/open",
            account_type: Some(self.account_type),
        }
    }


    /// The parameters: none.
    pub open spec fn params_spec(&self) -> Seq<(Seq<char>, ValueView)> {
        Seq::empty()
    }

    pub fn params(&self) -> (r: Vec<Param>)
        ensures
            params_view(r@) == self.params_spec(),
    {
        let v: Vec<Param> = Vec::new();
        assert(params_view(v@) =~= self.params_spec());
        v
    }
}

/// Recent orders of the current session.
#[derive(Clone, Debug)]
pub struct OrderHistoryCurrent {
    pub account_type: AccountType,
    pub n: Option<u32>,
    pub symbol: Option<String>,
    pub executed_only: bool,
}

impl OrderHistoryCurrent {

    pub fn endpoint(&self) -> (r: Endpoint)
        ensures
            r == (Endpoint {
                method: Method::Get,
                needs_account_group: true,
                needs_auth: true,
                api_path: "/order/hist/current",
                account_type: Some(self.account_type),
            }),
    {
        Endpoint {
            method: Method::Get,
            needs_account_group: true,
            needs_auth: true,
            api_path: "/order/hist/current",
            account_type: Some(self.account_type),
        }
    }


    /// The parameters, in wire order.
    pub open spec fn params_spec(&self) -> Seq<(Seq<char>, ValueView)> {
        seq![
            ("n"@, (match self.n { Some(x) => ValueView::Int(x as int), None => ValueView::Absent })),
                ("symbol"@, opt_text_view(self.symbol)),
                ("executedOnly"@, ValueView::Flag(self.executed_only)),
        ]
    }

    pub fn params(&self) -> (r: Vec<Param>)
        ensures
            params_view(r@) == self.params_spec(),
    {
        let mut v: Vec<Param> = Vec::new();
        v.push(match self.n {
            Some(x) => Param { name: "n", value: ParamValue::Int(x as i64) },
            None => Param { name: "n", value: ParamValue::Absent },
        });
        v.push(opt_text_param("symbol", &self.symbol));
        v.push(Param { name: "executedOnly", value: ParamValue::Flag(self.executed_only) });
        assert(params_view(v@) =~= self.params_spec());
        v
    }
}

/// Order history, a page at a time; the account type is sent as `category`.
#[derive(Clone, Debug)]
pub struct OrderHistory {
    pub account_type: AccountType,
    pub symbol: Option<String>,
    pub order_type: Option<OrderType>,
    pub side: Option<OrderSide>,
    pub status: Option<model::OrderStatus>,
    pub start_time: Option<i64>,
    pub end_time: Option<i64>,
    pub page: Option<u32>,
    pub page_size: Option<u32>,
}

impl OrderHistory {

    pub fn endpoint(&self) -> (r: Endpoint)
        ensures
            r == (Endpoint {
                method: Method::Get,
                needs_account_group: true,
                needs_auth: true,
                api_path: "/order/hist",
                account_type: None,
            }),
    {
        Endpoint {
            method: Method::Get,
            needs_account_group: true,
            needs_auth: true,
            api_path: "/order/hist",
            account_type: None,
        }
    }


    /// The parameters, in wire order.
    pub open spec fn params_spec(&self) -> Seq<(Seq<char>, ValueView)> {
        seq![
            ("category"@, ValueView::Text(self.account_type.wire_name())),
                ("symbol"@, opt_text_view(self.symbol)),
                ("orderType"@, (match self.order_type { Some(t) => ValueView::Text(t.wire_name()), None => ValueView::Absent })),
                ("side"@, (match self.side { Some(t) => ValueView::Text(t.wire_name()), None => ValueView::Absent })),
                ("status"@, (match self.status { Some(t) => ValueView::Text(t.wire_name()), None => ValueView::Absent })),
                ("startTime"@, (match self.start_time { Some(x) => ValueView::Int(x as int), None => ValueView::Absent })),
                ("endTime"@, (match self.end_time { Some(x) => ValueView::Int(x as int), None => ValueView::Absent })),
                ("page"@, (match self.page { Some(x) => ValueView::Int(x as int), None => ValueView::Absent })),
                ("pageSize"@, (match self.page_size { Some(x) => ValueView::Int(x as int), None => ValueView::Absent })),
        ]
    }

    pub fn params(&self) -> (r: Vec<Param>)
        ensures
            params_view(r@) == self.params_spec(),
    {
        let mut v: Vec<Param> = Vec::new();
        v.push(wire_param("category", self.account_type.as_wire()));
        v.push(opt_text_param("symbol", &self.symbol));
        v.push(match self.order_type {
            Some(t) => wire_param("orderType", t.as_wire()),
            None => Param { name: "orderType", value: ParamValue::Absent },
        });
        v.push(match self.side {
            Some(t) => wire_param("side", t.as_wire()),
            None => Param { name: "side", value: ParamValue::Absent },
        });
        v.push(match self.status {
            Some(t) => wire_param("status", t.as_wire()),
            None => Param { name: "status", value: ParamValue::Absent },
        });
        v.push(match self.start_time {
            Some(x) => Param { name: "startTime", value: ParamValue::Int(x as i64) },
            None => Param { name: "startTime", value: ParamValue::Absent },
        });
        v.push(match self.end_time {
            Some(x) => Param { name: "endTime", value: ParamValue::Int(x as i64) },
            None => Param { name: "endTime", value: ParamValue::Absent },
        });
        v.push(match self.page {
            Some(x) => Param { name: "page", value: ParamValue::Int(x as i64) },
            None => Param { name: "page", value: ParamValue::Absent },
        });
        v.push(match self.page_size {
            Some(x) => Param { name: "pageSize", value: ParamValue::Int(x as i64) },
            None => Param { name: "pageSize", value: ParamValue::Absent },
        });
        assert(params_view(v@) =~= self.params_spec());
        v
    }
}

} // verus!
