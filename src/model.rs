//! Enumerations of the exchange's wire vocabulary, each with its wire names.
use vstd::prelude::*;

use crate::text::text_eq;

verus! {

/// Kind of trading account.
#[derive(Copy, Clone, Debug, PartialEq, Eq, Structural, Hash)]
pub enum AccountType {
    Cash,
    Margin,
}

impl AccountType {

    /// The name written on the wire.
    pub open spec fn wire_name(self) -> Seq<char> {
        match self {
            AccountType::Cash => "cash"@,
            AccountType::Margin => "margin"@,
        }
    }


    /// The value that a wire name denotes, if any.
    pub open spec fn from_wire_spec(s: Seq<char>) -> Option<AccountType> {
        if s == "cash"@ || s == "CASH"@ {
            Some(AccountType::Cash)
        } else if s == "margin"@ || s == "MARGIN"@ {
            Some(AccountType::Margin)
        } else {
            None
        }
    }


    pub fn as_wire(self) -> (r: &'static str)
        ensures
            r@ == self.wire_name(),
    {
        match self {
            AccountType::Cash => "cash",
            AccountType::Margin => "margin",
        }
    }


    /// Reads a wire name.
    pub fn from_wire(s: &str) -> (r: Option<AccountType>)
        ensures
            r == Self::from_wire_spec(s@),
    {
        if text_eq(s, "cash") || text_eq(s, "CASH") {
            Some(AccountType::Cash)
        } else if text_eq(s, "margin") || text_eq(s, "MARGIN") {
            Some(AccountType::Margin)
        } else {
            None
        }
    }
}

/// Length of a price bar.
#[derive(Copy, Clone, Debug, PartialEq, Eq, Structural, Hash)]
pub enum Interval {
    T1m,
    T5m,
    T15m,
    T30m,
    T60m,
    T120m,
    T240m,
    T360m,
    T720m,
    T1d,
    T1w,
    T1M,
}

impl Interval {

    /// The name written on the wire.
    pub open spec fn wire_name(self) -> Seq<char> {
        match self {
            Interval::T1m => "1"@,
            Interval::T5m => "5"@,
            Interval::T15m => "15"@,
            Interval::T30m => "30"@,
            Interval::T60m => "60"@,
            Interval::T120m => "120"@,
            Interval::T240m => "240"@,
            Interval::T360m => "360"@,
            Interval::T720m => "720"@,
            Interval::T1d => "1d"@,
            Interval::T1w => "1w"@,
            Interval::T1M => "1m"@,
        }
    }


    /// The value that a wire name denotes, if any.
    pub open spec fn from_wire_spec(s: Seq<char>) -> Option<Interval> {
        if s == "1"@ {
            Some(Interval::T1m)
        } else if s == "5"@ {
            Some(Interval::T5m)
        } else if s == "15"@ {
            Some(Interval::T15m)
        } else if s == "30"@ {
            Some(Interval::T30m)
        } else if s == "60"@ {
            Some(Interval::T60m)
        } else if s == "120"@ {
            Some(Interval::T120m)
        } else if s == "240"@ {
            Some(Interval::T240m)
        } else if s == "360"@ {
            Some(Interval::T360m)
        } else if s == "720"@ {
            Some(Interval::T720m)
        } else if s == "1d"@ {
            Some(Interval::T1d)
        } else if s == "1w"@ {
            Some(Interval::T1w)
        } else if s == "1m"@ {
            Some(Interval::T1M)
        } else {
            None
        }
    }


    pub fn as_wire(self) -> (r: &'static str)
        ensures
            r@ == self.wire_name(),
    {
        match self {
            Interval::T1m => "1",
            Interval::T5m => "5",
            Interval::T15m => "15",
            Interval::T30m => "30",
            Interval::T60m => "60",
            Interval::T120m => "120",
            Interval::T240m => "240",
            Interval::T360m => "360",
            Interval::T720m => "720",
            Interval::T1d => "1d",
            Interval::T1w => "1w",
            Interval::T1M => "1m",
        }
    }


    /// Reads a wire name.
    pub fn from_wire(s: &str) -> (r: Option<Interval>)
        ensures
            r == Self::from_wire_spec(s@),
    {
        if text_eq(s, "1") {
            Some(Interval::T1m)
        } else if text_eq(s, "5") {
            Some(Interval::T5m)
        } else if text_eq(s, "15") {
            Some(Interval::T15m)
        } else if text_eq(s, "30") {
            Some(Interval::T30m)
        } else if text_eq(s, "60") {
            Some(Interval::T60m)
        } else if text_eq(s, "120") {
            Some(Interval::T120m)
        } else if text_eq(s, "240") {
            Some(Interval::T240m)
        } else if text_eq(s, "360") {
            Some(Interval::T360m)
        } else if text_eq(s, "720") {
            Some(Interval::T720m)
        } else if text_eq(s, "1d") {
            Some(Interval::T1d)
        } else if text_eq(s, "1w") {
            Some(Interval::T1w)
        } else if text_eq(s, "1m") {
            Some(Interval::T1M)
        } else {
            None
        }
    }
}

/// Whether an asset can be moved or traded.
#[derive(Copy, Clone, Debug, PartialEq, Eq, Structural, Hash)]
pub enum AssetStatus {
    Normal,
    NoDeposit,
    NoWithdraw,
    NoTransaction,
}

impl AssetStatus {

    /// The name written on the wire.
    pub open spec fn wire_name(self) -> Seq<char> {
        match self {
            AssetStatus::Normal => "Normal"@,
            AssetStatus::NoDeposit => "NoDeposit"@,
            AssetStatus::NoWithdraw => "NoWithdraw"@,
            AssetStatus::NoTransaction => "NoTransaction"@,
        }
    }


    /// The value that a wire name denotes, if any.
    pub open spec fn from_wire_spec(s: Seq<char>) -> Option<AssetStatus> {
        if s == "Normal"@ {
            Some(AssetStatus::Normal)
        } else if s == "NoDeposit"@ {
            Some(AssetStatus::NoDeposit)
        } else if s == "NoWithdraw"@ {
            Some(AssetStatus::NoWithdraw)
        } else if s == "NoTransaction"@ {
            Some(AssetStatus::NoTransaction)
        } else {
            None
        }
    }


    pub fn as_wire(self) -> (r: &'static str)
        ensures
            r@ == self.wire_name(),
    {
        match self {
            AssetStatus::Normal => "Normal",
            AssetStatus::NoDeposit => "NoDeposit",
            AssetStatus::NoWithdraw => "NoWithdraw",
            AssetStatus::NoTransaction => "NoTransaction",
        }
    }


    /// Reads a wire name.
    pub fn from_wire(s: &str) -> (r: Option<AssetStatus>)
        ensures
            r == Self::from_wire_spec(s@),
    {
        if text_eq(s, "Normal") {
            Some(AssetStatus::Normal)
        } else if text_eq(s, "NoDeposit") {
            Some(AssetStatus::NoDeposit)
        } else if text_eq(s, "NoWithdraw") {
            Some(AssetStatus::NoWithdraw)
        } else if text_eq(s, "NoTransaction") {
            Some(AssetStatus::NoTransaction)
        } else {
            None
        }
    }
}

/// Which side of a trade pays the commission.
#[derive(Copy, Clone, Debug, PartialEq, Eq, Structural, Hash)]
pub enum ComissionType {
    Base,
    Quote,
    Received,
}

impl ComissionType {

    /// The name written on the wire.
    pub open spec fn wire_name(self) -> Seq<char> {
        match self {
            ComissionType::Base => "Base"@,
            ComissionType::Quote => "Quote"@,
            ComissionType::Received => "Received"@,
        }
    }


    /// The value that a wire name denotes, if any.
    pub open spec fn from_wire_spec(s: Seq<char>) -> Option<ComissionType> {
        if s == "Base"@ {
            Some(ComissionType::Base)
        } else if s == "Quote"@ {
            Some(ComissionType::Quote)
        } else if s == "Received"@ {
            Some(ComissionType::Received)
        } else {
            None
        }
    }


    pub fn as_wire(self) -> (r: &'static str)
        ensures
            r@ == self.wire_name(),
    {
        match self {
            ComissionType::Base => "Base",
            ComissionType::Quote => "Quote",
            ComissionType::Received => "Received",
        }
    }


    /// Reads a wire name.
    pub fn from_wire(s: &str) -> (r: Option<ComissionType>)
        ensures
            r == Self::from_wire_spec(s@),
    {
        if text_eq(s, "Base") {
            Some(ComissionType::Base)
        } else if text_eq(s, "Quote") {
            Some(ComissionType::Quote)
        } else if text_eq(s, "Received") {
            Some(ComissionType::Received)
        } else {
            None
        }
    }
}

/// Market kind of a symbol.
#[derive(Copy, Clone, Debug, PartialEq, Eq, Structural, Hash)]
pub enum SymbolType {
    Spot,
    Derivatives,
}

impl SymbolType {

    /// The name written on the wire.
    pub open spec fn wire_name(self) -> Seq<char> {
        match self {
            SymbolType::Spot => "spot"@,
            SymbolType::Derivatives => "derivatives"@,
        }
    }


    /// The value that a wire name denotes, if any.
    pub open spec fn from_wire_spec(s: Seq<char>) -> Option<SymbolType> {
        if s == "spot"@ {
            Some(SymbolType::Spot)
        } else if s == "derivatives"@ {
            Some(SymbolType::Derivatives)
        } else {
            None
        }
    }


    pub fn as_wire(self) -> (r: &'static str)
        ensures
            r@ == self.wire_name(),
    {
        match self {
            SymbolType::Spot => "spot",
            SymbolType::Derivatives => "derivatives",
        }
    }


    /// Reads a wire name.
    pub fn from_wire(s: &str) -> (r: Option<SymbolType>)
        ensures
            r == Self::from_wire_spec(s@),
    {
        if text_eq(s, "spot") {
            Some(SymbolType::Spot)
        } else if text_eq(s, "derivatives") {
            Some(SymbolType::Derivatives)
        } else {
            None
        }
    }
}

/// Kind of a data message or order action.
#[derive(Copy, Clone, Debug, PartialEq, Eq, Structural, Hash)]
pub enum MessageType {
    Bar,
    DepthSnapshot,
    Trades,
    PlaceOrder,
    CancelOrder,
    CancelAll,
}

impl MessageType {

    /// The name written on the wire.
    pub open spec fn wire_name(self) -> Seq<char> {
        match self {
            MessageType::Bar => "bar"@,
            MessageType::DepthSnapshot => "depth-snapshot"@,
            MessageType::Trades => "trades"@,
            MessageType::PlaceOrder => "place-order"@,
            MessageType::CancelOrder => "cancel-order"@,
            MessageType::CancelAll => "cancel-all"@,
        }
    }


    /// The value that a wire name denotes, if any.
    pub open spec fn from_wire_spec(s: Seq<char>) -> Option<MessageType> {
        if s == "bar"@ {
            Some(MessageType::Bar)
        } else if s == "depth-snapshot"@ {
            Some(MessageType::DepthSnapshot)
        } else if s == "trades"@ {
            Some(MessageType::Trades)
        } else if s == "place-order"@ {
            Some(MessageType::PlaceOrder)
        } else if s == "cancel-order"@ {
            Some(MessageType::CancelOrder)
        } else if s == "cancel-all"@ {
            Some(MessageType::CancelAll)
        } else {
            None
        }
    }


    pub fn as_wire(self) -> (r: &'static str)
        ensures
            r@ == self.wire_name(),
    {
        match self {
            MessageType::Bar => "bar",
            MessageType::DepthSnapshot => "depth-snapshot",
            MessageType::Trades => "trades",
            MessageType::PlaceOrder => "place-order",
            MessageType::CancelOrder => "cancel-order",
            MessageType::CancelAll => "cancel-all",
        }
    }


    /// Reads a wire name.
    pub fn from_wire(s: &str) -> (r: Option<MessageType>)
        ensures
            r == Self::from_wire_spec(s@),
    {
        if text_eq(s, "bar") {
            Some(MessageType::Bar)
        } else if text_eq(s, "depth-snapshot") {
            Some(MessageType::DepthSnapshot)
        } else if text_eq(s, "trades") {
            Some(MessageType::Trades)
        } else if text_eq(s, "place-order") {
            Some(MessageType::PlaceOrder)
        } else if text_eq(s, "cancel-order") {
            Some(MessageType::CancelOrder)
        } else if text_eq(s, "cancel-all") {
            Some(MessageType::CancelAll)
        } else {
            None
        }
    }
}

/// Direction of a wallet transaction.
#[derive(Copy, Clone, Debug, PartialEq, Eq, Structural, Hash)]
pub enum TransactionType {
    Deposit,
    Withdrawal,
}

impl TransactionType {

    /// The name written on the wire.
    pub open spec fn wire_name(self) -> Seq<char> {
        match self {
            TransactionType::Deposit => "deposit"@,
            TransactionType::Withdrawal => "withdrawal"@,
        }
    }


    /// The value that a wire name denotes, if any.
    pub open spec fn from_wire_spec(s: Seq<char>) -> Option<TransactionType> {
        if s == "deposit"@ {
            Some(TransactionType::Deposit)
        } else if s == "withdrawal"@ {
            Some(TransactionType::Withdrawal)
        } else {
            None
        }
    }


    pub fn as_wire(self) -> (r: &'static str)
        ensures
            r@ == self.wire_name(),
    {
        match self {
            TransactionType::Deposit => "deposit",
            TransactionType::Withdrawal => "withdrawal",
        }
    }


    /// Reads a wire name.
    pub fn from_wire(s: &str) -> (r: Option<TransactionType>)
        ensures
            r == Self::from_wire_spec(s@),
    {
        if text_eq(s, "deposit") {
            Some(TransactionType::Deposit)
        } else if text_eq(s, "withdrawal") {
            Some(TransactionType::Withdrawal)
        } else {
            None
        }
    }
}

/// Progress of a wallet transaction.
#[derive(Copy, Clone, Debug, PartialEq, Eq, Structural, Hash)]
pub enum TransactionStatus {
    Pending,
    Reviewing,
    Confirmed,
    Rejected,
    Canceled,
    Failed,
}

impl TransactionStatus {

    /// The name written on the wire.
    pub open spec fn wire_name(self) -> Seq<char> {
        match self {
            TransactionStatus::Pending => "pending"@,
            TransactionStatus::Reviewing => "reviewing"@,
            TransactionStatus::Confirmed => "confirmed"@,
            TransactionStatus::Rejected => "rejected"@,
            TransactionStatus::Canceled => "canceled"@,
            TransactionStatus::Failed => "failed"@,
        }
    }


    /// The value that a wire name denotes, if any.
    pub open spec fn from_wire_spec(s: Seq<char>) -> Option<TransactionStatus> {
        if s == "pending"@ {
            Some(TransactionStatus::Pending)
        } else if s == "reviewing"@ {
            Some(TransactionStatus::Reviewing)
        } else if s == "confirmed"@ {
            Some(TransactionStatus::Confirmed)
        } else if s == "rejected"@ {
            Some(TransactionStatus::Rejected)
        } else if s == "canceled"@ {
            Some(TransactionStatus::Canceled)
        } else if s == "failed"@ {
            Some(TransactionStatus::Failed)
        } else {
            None
        }
    }


    pub fn as_wire(self) -> (r: &'static str)
        ensures
            r@ == self.wire_name(),
    {
        match self {
            TransactionStatus::Pending => "pending",
            TransactionStatus::Reviewing => "reviewing",
            TransactionStatus::Confirmed => "confirmed",
            TransactionStatus::Rejected => "rejected",
            TransactionStatus::Canceled => "canceled",
            TransactionStatus::Failed => "failed",
        }
    }


    /// Reads a wire name.
    pub fn from_wire(s: &str) -> (r: Option<TransactionStatus>)
        ensures
            r == Self::from_wire_spec(s@),
    {
        if text_eq(s, "pending") {
            Some(TransactionStatus::Pending)
        } else if text_eq(s, "reviewing") {
            Some(TransactionStatus::Reviewing)
        } else if text_eq(s, "confirmed") {
            Some(TransactionStatus::Confirmed)
        } else if text_eq(s, "rejected") {
            Some(TransactionStatus::Rejected)
        } else if text_eq(s, "canceled") {
            Some(TransactionStatus::Canceled)
        } else if text_eq(s, "failed") {
            Some(TransactionStatus::Failed)
        } else {
            None
        }
    }
}

/// Market or limit order.
#[derive(Copy, Clone, Debug, PartialEq, Eq, Structural, Hash)]
pub enum OrderType {
    Market,
    Limit,
}

impl OrderType {

    /// The name written on the wire.
    pub open spec fn wire_name(self) -> Seq<char> {
        match self {
            OrderType::Market => "market"@,
            OrderType::Limit => "limit"@,
        }
    }


    /// The value that a wire name denotes, if any.
    pub open spec fn from_wire_spec(s: Seq<char>) -> Option<OrderType> {
        if s == "market"@ || s == "Market"@ {
            Some(OrderType::Market)
        } else if s == "limit"@ || s == "Limit"@ {
            Some(OrderType::Limit)
        } else {
            None
        }
    }


    pub fn as_wire(self) -> (r: &'static str)
        ensures
            r@ == self.wire_name(),
    {
        match self {
            OrderType::Market => "market",
            OrderType::Limit => "limit",
        }
    }


    /// Reads a wire name.
    pub fn from_wire(s: &str) -> (r: Option<OrderType>)
        ensures
            r == Self::from_wire_spec(s@),
    {
        if text_eq(s, "market") || text_eq(s, "Market") {
            Some(OrderType::Market)
        } else if text_eq(s, "limit") || text_eq(s, "Limit") {
            Some(OrderType::Limit)
        } else {
            None
        }
    }
}

/// Buy or sell.
#[derive(Copy, Clone, Debug, PartialEq, Eq, Structural, Hash)]
pub enum OrderSide {
    Buy,
    Sell,
}

impl OrderSide {

    /// The name written on the wire.
    pub open spec fn wire_name(self) -> Seq<char> {
        match self {
            OrderSide::Buy => "buy"@,
            OrderSide::Sell => "sell"@,
        }
    }


    /// The value that a wire name denotes, if any.
    pub open spec fn from_wire_spec(s: Seq<char>) -> Option<OrderSide> {
        if s == "buy"@ || s == "Buy"@ {
            Some(OrderSide::Buy)
        } else if s == "sell"@ || s == "Sell"@ {
            Some(OrderSide::Sell)
        } else {
            None
        }
    }


    pub fn as_wire(self) -> (r: &'static str)
        ensures
            r@ == self.wire_name(),
    {
        match self {
            OrderSide::Buy => "buy",
            OrderSide::Sell => "sell",
        }
    }


    /// Reads a wire name.
    pub fn from_wire(s: &str) -> (r: Option<OrderSide>)
        ensures
            r == Self::from_wire_spec(s@),
    {
        if text_eq(s, "buy") || text_eq(s, "Buy") {
            Some(OrderSide::Buy)
        } else if text_eq(s, "sell") || text_eq(s, "Sell") {
            Some(OrderSide::Sell)
        } else {
            None
        }
    }
}

/// How long an order stays active.
#[derive(Copy, Clone, Debug, PartialEq, Eq, Structural, Hash)]
pub enum TimeInForce {
    GTC,
    IOC,
}

impl TimeInForce {

    /// The name written on the wire.
    pub open spec fn wire_name(self) -> Seq<char> {
        match self {
            TimeInForce::GTC => "GTC"@,
            TimeInForce::IOC => "IOC"@,
        }
    }


    /// The value that a wire name denotes, if any.
    pub open spec fn from_wire_spec(s: Seq<char>) -> Option<TimeInForce> {
        if s == "GTC"@ {
            Some(TimeInForce::GTC)
        } else if s == "IOC"@ {
            Some(TimeInForce::IOC)
        } else {
            None
        }
    }


    pub fn as_wire(self) -> (r: &'static str)
        ensures
            r@ == self.wire_name(),
    {
        match self {
            TimeInForce::GTC => "GTC",
            TimeInForce::IOC => "IOC",
        }
    }


    /// Reads a wire name.
    pub fn from_wire(s: &str) -> (r: Option<TimeInForce>)
        ensures
            r == Self::from_wire_spec(s@),
    {
        if text_eq(s, "GTC") {
            Some(TimeInForce::GTC)
        } else if text_eq(s, "IOC") {
            Some(TimeInForce::IOC)
        } else {
            None
        }
    }
}

/// Execution instruction reported for an order.
#[derive(Copy, Clone, Debug, PartialEq, Eq, Structural, Hash)]
pub enum ExecInstruction {
    Post,
    Liquidation,
    Null,
}

impl ExecInstruction {

    /// The name written on the wire.
    pub open spec fn wire_name(self) -> Seq<char> {
        match self {
            ExecInstruction::Post => "POST"@,
            ExecInstruction::Liquidation => "Liquidation"@,
            ExecInstruction::Null => "NULL_VAL"@,
        }
    }


    /// The value that a wire name denotes, if any.
    pub open spec fn from_wire_spec(s: Seq<char>) -> Option<ExecInstruction> {
        if s == "POST"@ {
            Some(ExecInstruction::Post)
        } else if s == "Liquidation"@ {
            Some(ExecInstruction::Liquidation)
        } else if s == "NULL_VAL"@ {
            Some(ExecInstruction::Null)
        } else {
            None
        }
    }


    pub fn as_wire(self) -> (r: &'static str)
        ensures
            r@ == self.wire_name(),
    {
        match self {
            ExecInstruction::Post => "POST",
            ExecInstruction::Liquidation => "Liquidation",
            ExecInstruction::Null => "NULL_VAL",
        }
    }


    /// Reads a wire name.
    pub fn from_wire(s: &str) -> (r: Option<ExecInstruction>)
        ensures
            r == Self::from_wire_spec(s@),
    {
        if text_eq(s, "POST") {
            Some(ExecInstruction::Post)
        } else if text_eq(s, "Liquidation") {
            Some(ExecInstruction::Liquidation)
        } else if text_eq(s, "NULL_VAL") {
            Some(ExecInstruction::Null)
        } else {
            None
        }
    }
}

/// Lifecycle state of an order.
#[derive(Copy, Clone, Debug, PartialEq, Eq, Structural, Hash)]
pub enum OrderStatus {
    New,
    PendingNew,
    PartiallyFilled,
    Filled,
    Rejected,
    Canceled,
}

impl OrderStatus {

    /// The name written on the wire.
    pub open spec fn wire_name(self) -> Seq<char> {
        match self {
            OrderStatus::New => "New"@,
            OrderStatus::PendingNew => "PendingNew"@,
            OrderStatus::PartiallyFilled => "PartiallyFilled"@,
            OrderStatus::Filled => "Filled"@,
            OrderStatus::Rejected => "Rejected"@,
            OrderStatus::Canceled => "Canceled"@,
        }
    }


    /// The value that a wire name denotes, if any.
    pub open spec fn from_wire_spec(s: Seq<char>) -> Option<OrderStatus> {
        if s == "New"@ {
            Some(OrderStatus::New)
        } else if s == "PendingNew"@ {
            Some(OrderStatus::PendingNew)
        } else if s == "PartiallyFilled"@ {
            Some(OrderStatus::PartiallyFilled)
        } else if s == "Filled"@ {
            Some(OrderStatus::Filled)
        } else if s == "Rejected"@ {
            Some(OrderStatus::Rejected)
        } else if s == "Canceled"@ {
            Some(OrderStatus::Canceled)
        } else {
            None
        }
    }


    pub fn as_wire(self) -> (r: &'static str)
        ensures
            r@ == self.wire_name(),
    {
        match self {
            OrderStatus::New => "New",
            OrderStatus::PendingNew => "PendingNew",
            OrderStatus::PartiallyFilled => "PartiallyFilled",
            OrderStatus::Filled => "Filled",
            OrderStatus::Rejected => "Rejected",
            OrderStatus::Canceled => "Canceled",
        }
    }


    /// Reads a wire name.
    pub fn from_wire(s: &str) -> (r: Option<OrderStatus>)
        ensures
            r == Self::from_wire_spec(s@),
    {
        if text_eq(s, "New") {
            Some(OrderStatus::New)
        } else if text_eq(s, "PendingNew") {
            Some(OrderStatus::PendingNew)
        } else if text_eq(s, "PartiallyFilled") {
            Some(OrderStatus::PartiallyFilled)
        } else if text_eq(s, "Filled") {
            Some(OrderStatus::Filled)
        } else if text_eq(s, "Rejected") {
            Some(OrderStatus::Rejected)
        } else if text_eq(s, "Canceled") {
            Some(OrderStatus::Canceled)
        } else {
            None
        }
    }
}

/// Whether a stream session is authenticated.
#[derive(Copy, Clone, Debug, PartialEq, Eq, Structural, Hash)]
pub enum AuthType {
    Auth,
    Unauth,
}

impl AuthType {

    /// The name written on the wire.
    pub open spec fn wire_name(self) -> Seq<char> {
        match self {
            AuthType::Auth => "auth"@,
            AuthType::Unauth => "unauth"@,
        }
    }


    /// The value that a wire name denotes, if any.
    pub open spec fn from_wire_spec(s: Seq<char>) -> Option<AuthType> {
        if s == "auth"@ {
            Some(AuthType::Auth)
        } else if s == "unauth"@ {
            Some(AuthType::Unauth)
        } else {
            None
        }
    }


    pub fn as_wire(self) -> (r: &'static str)
        ensures
            r@ == self.wire_name(),
    {
        match self {
            AuthType::Auth => "auth",
            AuthType::Unauth => "unauth",
        }
    }


    /// Reads a wire name.
    pub fn from_wire(s: &str) -> (r: Option<AuthType>)
        ensures
            r == Self::from_wire_spec(s@),
    {
        if text_eq(s, "auth") {
            Some(AuthType::Auth)
        } else if text_eq(s, "unauth") {
            Some(AuthType::Unauth)
        } else {
            None
        }
    }
}

impl Default for AccountType {
    fn default() -> (r: AccountType)
        ensures
            r == AccountType::Cash,
    {
        AccountType::Cash
    }
}

} // verus!
