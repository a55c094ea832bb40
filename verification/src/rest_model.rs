//! The closed vocabularies of the order endpoints, each with its exact wire
//! rendering.

use vstd::prelude::*;

verus! {

/// Which side of the book an order takes.
#[derive(Debug, Clone, Copy, PartialEq, Eq, Structural)]
pub enum OrderSide {
    Buy,
    Sell,
}

impl OrderSide {
    /// The wire rendering of the side.
    pub open spec fn spec_param(self) -> Seq<char> {
        match self {
            OrderSide::Buy => "BUY"@,
            OrderSide::Sell => "SELL"@,
        }
    }

    /// Renders the side as the endpoint expects it.
    pub fn param(&self) -> (r: String)
        ensures
            r@ == self.spec_param(),
    {
        match self {
            OrderSide::Buy => String::from_str("BUY"),
            OrderSide::Sell => String::from_str("SELL"),
        }
    }
}

/// The order type vocabulary of the spot and futures order endpoints.
#[derive(Debug, Clone, Copy, PartialEq, Eq, Structural)]
pub enum OrderType {
    Limit,
    Market,
    StopLoss,
    StopLossLimit,
    TakeProfit,
    TakeProfitLimit,
    LimitMaker,
}

impl OrderType {
    /// The wire rendering of the order type.
    pub open spec fn spec_param(self) -> Seq<char> {
        match self {
            OrderType::Limit => "LIMIT"@,
            OrderType::Market => "MARKET"@,
            OrderType::StopLoss => "STOP_LOSS"@,
            OrderType::StopLossLimit => "STOP_LOSS_LIMIT"@,
            OrderType::TakeProfit => "TAKE_PROFIT"@,
            OrderType::TakeProfitLimit => "TAKE_PROFIT_LIMIT"@,
            OrderType::LimitMaker => "LIMIT_MAKER"@,
        }
    }

    /// Renders the order type as the endpoint expects it.
    pub fn param(&self) -> (r: String)
        ensures
            r@ == self.spec_param(),
    {
        match self {
            OrderType::Limit => String::from_str("LIMIT"),
            OrderType::Market => String::from_str("MARKET"),
            OrderType::StopLoss => String::from_str("STOP_LOSS"),
            OrderType::StopLossLimit => String::from_str("STOP_LOSS_LIMIT"),
            OrderType::TakeProfit => String::from_str("TAKE_PROFIT"),
            OrderType::TakeProfitLimit => String::from_str("TAKE_PROFIT_LIMIT"),
            OrderType::LimitMaker => String::from_str("LIMIT_MAKER"),
        }
    }
}

/// How long an order stays live.
#[derive(Debug, Clone, Copy, PartialEq, Eq, Structural)]
pub enum TimeInForce {
    GTC,
    IOC,
    FOK,
}

impl TimeInForce {
    /// The wire rendering of the time-in-force.
    pub open spec fn spec_param(self) -> Seq<char> {
        match self {
            TimeInForce::GTC => "GTC"@,
            TimeInForce::IOC => "IOC"@,
            TimeInForce::FOK => "FOK"@,
        }
    }

    /// Renders the time-in-force as the endpoint expects it.
    pub fn param(&self) -> (r: String)
        ensures
            r@ == self.spec_param(),
    {
        match self {
            TimeInForce::GTC => String::from_str("GTC"),
            TimeInForce::IOC => String::from_str("IOC"),
            TimeInForce::FOK => String::from_str("FOK"),
        }
    }
}

/// How much of the placed order the response reports back.
#[derive(Debug, Clone, Copy, PartialEq, Eq, Structural)]
pub enum OrderResponse {
    Ack,
    ResultOnly,
    Full,
}

impl OrderResponse {
    /// The wire rendering of the response kind.
    pub open spec fn spec_param(self) -> Seq<char> {
        match self {
            OrderResponse::Ack => "ACK"@,
            OrderResponse::ResultOnly => "RESULT"@,
            OrderResponse::Full => "FULL"@,
        }
    }

    /// Renders the response kind as the endpoint expects it.
    pub fn param(&self) -> (r: String)
        ensures
            r@ == self.spec_param(),
    {
        match self {
            OrderResponse::Ack => String::from_str("ACK"),
            OrderResponse::ResultOnly => String::from_str("RESULT"),
            OrderResponse::Full => String::from_str("FULL"),
        }
    }
}

/// Where an order stands in its lifecycle.
#[derive(Debug, Clone, Copy, PartialEq, Eq, Structural)]
pub enum OrderStatus {
    New,
    PartiallyFilled,
    Filled,
    Canceled,
    PendingCancel,
    Rejected,
    Expired,
    ExpiredInMatch,
}

impl OrderStatus {
    /// The wire rendering of the status.
    pub open spec fn spec_param(self) -> Seq<char> {
        match self {
            OrderStatus::New => "NEW"@,
            OrderStatus::PartiallyFilled => "PARTIALLY_FILLED"@,
            OrderStatus::Filled => "FILLED"@,
            OrderStatus::Canceled => "CANCELED"@,
            OrderStatus::PendingCancel => "PENDING_CANCEL"@,
            OrderStatus::Rejected => "REJECTED"@,
            OrderStatus::Expired => "EXPIRED"@,
            OrderStatus::ExpiredInMatch => "EXPIRED_IN_MATCH"@,
        }
    }

    /// Renders the status as the endpoint reports it.
    pub fn param(&self) -> (r: String)
        ensures
            r@ == self.spec_param(),
    {
        match self {
            OrderStatus::New => String::from_str("NEW"),
            OrderStatus::PartiallyFilled => String::from_str("PARTIALLY_FILLED"),
            OrderStatus::Filled => String::from_str("FILLED"),
            OrderStatus::Canceled => String::from_str("CANCELED"),
            OrderStatus::PendingCancel => String::from_str("PENDING_CANCEL"),
            OrderStatus::Rejected => String::from_str("REJECTED"),
            OrderStatus::Expired => String::from_str("EXPIRED"),
            OrderStatus::ExpiredInMatch => String::from_str("EXPIRED_IN_MATCH"),
        }
    }
}

/// What happens to the new order when the cancel half of a cancel-replace
/// fails.
#[derive(Debug, Clone, Copy, PartialEq, Eq, Structural)]
pub enum CancelReplaceMode {
    StopOnFailure,
    AllowFailure,
}

impl CancelReplaceMode {
    /// The wire rendering of the mode.
    pub open spec fn spec_param(self) -> Seq<char> {
        match self {
            CancelReplaceMode::StopOnFailure => "STOP_ON_FAILURE"@,
            CancelReplaceMode::AllowFailure => "ALLOW_FAILURE"@,
        }
    }

    /// Renders the mode as the endpoint expects it.
    pub fn param(&self) -> (r: String)
        ensures
            r@ == self.spec_param(),
    {
        match self {
            CancelReplaceMode::StopOnFailure => String::from_str("STOP_ON_FAILURE"),
            CancelReplaceMode::AllowFailure => String::from_str("ALLOW_FAILURE"),
        }
    }
}

/// Which position a futures order works on, under hedge mode.
#[derive(Debug, Clone, Copy, PartialEq, Eq, Structural)]
pub enum PositionSide {
    Both,
    Long,
    Short,
}

impl PositionSide {
    /// The wire rendering of the position side.
    pub open spec fn spec_param(self) -> Seq<char> {
        match self {
            PositionSide::Both => "BOTH"@,
            PositionSide::Long => "LONG"@,
            PositionSide::Short => "SHORT"@,
        }
    }

    /// Renders the position side as the endpoint expects it.
    pub fn param(&self) -> (r: String)
        ensures
            r@ == self.spec_param(),
    {
        match self {
            PositionSide::Both => String::from_str("BOTH"),
            PositionSide::Long => String::from_str("LONG"),
            PositionSide::Short => String::from_str("SHORT"),
        }
    }
}

/// Which price a stop trigger of a futures order watches.
#[derive(Debug, Clone, Copy, PartialEq, Eq, Structural)]
pub enum WorkingType {
    MarkPrice,
    ContractPrice,
}

impl WorkingType {
    /// The wire rendering of the working type.
    pub open spec fn spec_param(self) -> Seq<char> {
        match self {
            WorkingType::MarkPrice => "MARK_PRICE"@,
            WorkingType::ContractPrice => "CONTRACT_PRICE"@,
        }
    }

    /// Renders the working type as the endpoint expects it.
    pub fn param(&self) -> (r: String)
        ensures
            r@ == self.spec_param(),
    {
        match self {
            WorkingType::MarkPrice => String::from_str("MARK_PRICE"),
            WorkingType::ContractPrice => String::from_str("CONTRACT_PRICE"),
        }
    }
}

/// The parameters of one order cancellation, shared by the market families.
pub struct OrderCancellation {
    pub symbol: String,
    pub order_id: Option<String>,
    pub orig_client_order_id: Option<String>,
    pub new_client_order_id: Option<String>,
    pub recv_window: Option<u64>,
}

impl OrderCancellation {
    /// A cancellation for the given symbol, with no id and no window set.
    pub fn new(symbol: String) -> (r: OrderCancellation)
        ensures
            r.symbol == symbol,
            r.order_id is None,
            r.orig_client_order_id is None,
            r.new_client_order_id is None,
            r.recv_window is None,
    {
        OrderCancellation {
            symbol,
            order_id: None,
            orig_client_order_id: None,
            new_client_order_id: None,
            recv_window: None,
        }
    }

    /// The window this cancellation is signed under: its own when set, the
    /// caller's default otherwise.
    pub open spec fn spec_window(&self, default_window: u64) -> u64 {
        if self.recv_window is Some {
            self.recv_window->Some_0
        } else {
            default_window
        }
    }

    /// The caller entries this cancellation sends, in the endpoint's order.
    pub open spec fn spec_params(&self) -> Seq<(Seq<char>, Seq<char>)> {
        seq![("symbol"@, self.symbol@)] + (if self.order_id is Some {
            seq![("orderId"@, self.order_id->Some_0@)]
        } else {
            Seq::empty()
        }) + (if self.orig_client_order_id is Some {
            seq![("origClientOrderId"@, self.orig_client_order_id->Some_0@)]
        } else {
            Seq::empty()
        }) + (if self.new_client_order_id is Some {
            seq![("newClientOrderId"@, self.new_client_order_id->Some_0@)]
        } else {
            Seq::empty()
        })
    }

    /// The caller entries, as an owned list.
    pub fn params(&self) -> (r: Vec<(String, String)>)
        ensures
            crate::util::pair_views(r@) == self.spec_params(),
    {
        let mut entries: Vec<(String, String)> = Vec::new();
        crate::util::push_param(&mut entries, "symbol", self.symbol.clone());
        proof {
            assert(crate::util::pair_views(entries@) =~= seq![("symbol"@, self.symbol@)]);
        }
        crate::util::push_opt_param(&mut entries, "orderId", &self.order_id);
        crate::util::push_opt_param(&mut entries, "origClientOrderId", &self.orig_client_order_id);
        crate::util::push_opt_param(&mut entries, "newClientOrderId", &self.new_client_order_id);
        entries
    }
}

} // verus!
