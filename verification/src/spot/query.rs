//! Signed account queries: orders, open orders, order history, account
//! information and trade history, with their response shapes.

use vstd::prelude::*;
use crate::rest_model::{OrderSide, OrderStatus, OrderType, TimeInForce};
use crate::util::{
    build_signed_request, pair_views, push_param, spec_canonical_query, spec_u64_string,
    u64_string,
};

verus! {

/// Signed query for one order of a symbol, by order id or by the client's
/// own id.
pub struct QueryOrderBuilder {
    pub symbol: String,
    pub order_id: Option<String>,
    pub orig_client_order_id: Option<String>,
    pub recv_window: u64,
}

impl QueryOrderBuilder {
    /// A query for the given symbol, with no id and no window set.
    pub fn new(symbol: String) -> (r: QueryOrderBuilder)
        ensures
            r.symbol == symbol,
            r.order_id is None,
            r.orig_client_order_id is None,
            r.recv_window == 0,
    {
        QueryOrderBuilder { symbol, order_id: None, orig_client_order_id: None, recv_window: 0 }
    }

    /// Sets the exchange-assigned order id to look up.
    pub fn order_id(self, order_id: String) -> (r: QueryOrderBuilder)
        ensures
            r == (QueryOrderBuilder { order_id: Some(order_id), ..self }),
    {
        QueryOrderBuilder { order_id: Some(order_id), ..self }
    }

    /// Sets the client-assigned order id to look up.
    pub fn orig_client_order_id(self, orig_client_order_id: String) -> (r: QueryOrderBuilder)
        ensures
            r == (QueryOrderBuilder {
                orig_client_order_id: Some(orig_client_order_id),
                ..self
            }),
    {
        QueryOrderBuilder { orig_client_order_id: Some(orig_client_order_id), ..self }
    }

    /// Sets the receive window of the signed request.
    pub fn recv_window(self, recv_window: u64) -> (r: QueryOrderBuilder)
        ensures
            r == (QueryOrderBuilder { recv_window, ..self }),
    {
        QueryOrderBuilder { recv_window, ..self }
    }

    /// The caller entries this query sends, in the endpoint's order.
    pub open spec fn spec_params(&self) -> Seq<(Seq<char>, Seq<char>)> {
        seq![("symbol"@, self.symbol@)] + (match self.order_id {
            Some(ref id) => seq![("orderId"@, id@)],
            None => Seq::empty(),
        }) + (match self.orig_client_order_id {
            Some(ref id) => seq![("origClientOrderId"@, id@)],
            None => Seq::empty(),
        })
    }

    /// The caller entries, as an owned list.
    pub fn params(&self) -> (r: Vec<(String, String)>)
        ensures
            pair_views(r@) == self.spec_params(),
    {
        let mut entries: Vec<(String, String)> = Vec::new();
        push_param(&mut entries, "symbol", self.symbol.clone());
        match &self.order_id {
            Some(id) => push_param(&mut entries, "orderId", id.clone()),
            None => {},
        }
        match &self.orig_client_order_id {
            Some(id) => push_param(&mut entries, "origClientOrderId", id.clone()),
            None => {},
        }
        proof {
            assert(pair_views(entries@) =~= self.spec_params());
        }
        entries
    }

    /// The signed canonical query of this request, timestamped now.
    pub fn get_params(&self) -> (r: String)
        ensures
            exists|ts: u64| r@ == spec_canonical_query(self.spec_params(), self.recv_window, ts),
    {
        let entries = self.params();
        build_signed_request(&entries, self.recv_window)
    }
}

/// Signed query for every open order of a symbol.
pub struct QueryOpenOrdersBuilder {
    pub symbol: String,
    pub recv_window: u64,
}

impl QueryOpenOrdersBuilder {
    /// A query for the given symbol, with no window set.
    pub fn new(symbol: String) -> (r: QueryOpenOrdersBuilder)
        ensures
            r.symbol == symbol,
            r.recv_window == 0,
    {
        QueryOpenOrdersBuilder { symbol, recv_window: 0 }
    }

    /// Sets the receive window of the signed request.
    pub fn recv_window(self, recv_window: u64) -> (r: QueryOpenOrdersBuilder)
        ensures
            r == (QueryOpenOrdersBuilder { recv_window, ..self }),
    {
        QueryOpenOrdersBuilder { recv_window, ..self }
    }

    /// The caller entries this query sends: the symbol alone.
    pub open spec fn spec_params(&self) -> Seq<(Seq<char>, Seq<char>)> {
        seq![("symbol"@, self.symbol@)]
    }

    /// The caller entries, as an owned list.
    pub fn params(&self) -> (r: Vec<(String, String)>)
        ensures
            pair_views(r@) == self.spec_params(),
    {
        let mut entries: Vec<(String, String)> = Vec::new();
        push_param(&mut entries, "symbol", self.symbol.clone());
        proof {
            assert(pair_views(entries@) =~= self.spec_params());
        }
        entries
    }

    /// The signed canonical query of this request, timestamped now.
    pub fn get_params(&self) -> (r: String)
        ensures
            exists|ts: u64| r@ == spec_canonical_query(self.spec_params(), self.recv_window, ts),
    {
        let entries = self.params();
        build_signed_request(&entries, self.recv_window)
    }
}

/// Signed query for the order history of a symbol.
pub struct QueryAllOrdersBuilder {
    pub symbol: String,
    pub order_id: Option<String>,
    pub start_time: Option<u64>,
    pub end_time: Option<u64>,
    pub limit: Option<u16>,
    pub recv_window: u64,
}

impl QueryAllOrdersBuilder {
    /// A query for the given symbol, with no range and no window set.
    pub fn new(symbol: String) -> (r: QueryAllOrdersBuilder)
        ensures
            r.symbol == symbol,
            r.order_id is None,
            r.start_time is None,
            r.end_time is None,
            r.limit is None,
            r.recv_window == 0,
    {
        QueryAllOrdersBuilder {
            symbol,
            order_id: None,
            start_time: None,
            end_time: None,
            limit: None,
            recv_window: 0,
        }
    }

    /// Sets the order id to list from.
    pub fn order_id(self, order_id: String) -> (r: QueryAllOrdersBuilder)
        ensures
            r == (QueryAllOrdersBuilder { order_id: Some(order_id), ..self }),
    {
        QueryAllOrdersBuilder { order_id: Some(order_id), ..self }
    }

    /// Sets the inclusive start of the time range, in milliseconds.
    pub fn start_time(self, start_time: u64) -> (r: QueryAllOrdersBuilder)
        ensures
            r == (QueryAllOrdersBuilder { start_time: Some(start_time), ..self }),
    {
        QueryAllOrdersBuilder { start_time: Some(start_time), ..self }
    }

    /// Sets the inclusive end of the time range, in milliseconds.
    pub fn end_time(self, end_time: u64) -> (r: QueryAllOrdersBuilder)
        ensures
            r == (QueryAllOrdersBuilder { end_time: Some(end_time), ..self }),
    {
        QueryAllOrdersBuilder { end_time: Some(end_time), ..self }
    }

    /// Sets the maximum number of orders to return.
    pub fn limit(self, limit: u16) -> (r: QueryAllOrdersBuilder)
        ensures
            r == (QueryAllOrdersBuilder { limit: Some(limit), ..self }),
    {
        QueryAllOrdersBuilder { limit: Some(limit), ..self }
    }

    /// Sets the receive window of the signed request.
    pub fn recv_window(self, recv_window: u64) -> (r: QueryAllOrdersBuilder)
        ensures
            r == (QueryAllOrdersBuilder { recv_window, ..self }),
    {
        QueryAllOrdersBuilder { recv_window, ..self }
    }

    /// The caller entries this query sends, in the endpoint's order.
    pub open spec fn spec_params(&self) -> Seq<(Seq<char>, Seq<char>)> {
        seq![("symbol"@, self.symbol@)] + (match self.order_id {
            Some(ref id) => seq![("orderId"@, id@)],
            None => Seq::empty(),
        }) + (match self.start_time {
            Some(t) => seq![("startTime"@, spec_u64_string(t as nat))],
            None => Seq::empty(),
        }) + (match self.end_time {
            Some(t) => seq![("endTime"@, spec_u64_string(t as nat))],
            None => Seq::empty(),
        }) + (match self.limit {
            Some(l) => seq![("limit"@, spec_u64_string(l as nat))],
            None => Seq::empty(),
        })
    }

    /// The caller entries, as an owned list.
    pub fn params(&self) -> (r: Vec<(String, String)>)
        ensures
            pair_views(r@) == self.spec_params(),
    {
        let mut entries: Vec<(String, String)> = Vec::new();
        push_param(&mut entries, "symbol", self.symbol.clone());
        match &self.order_id {
            Some(id) => push_param(&mut entries, "orderId", id.clone()),
            None => {},
        }
        match self.start_time {
            Some(t) => push_param(&mut entries, "startTime", u64_string(t)),
            None => {},
        }
        match self.end_time {
            Some(t) => push_param(&mut entries, "endTime", u64_string(t)),
            None => {},
        }
        match self.limit {
            Some(l) => push_param(&mut entries, "limit", u64_string(l as u64)),
            None => {},
        }
        proof {
            assert(pair_views(entries@) =~= self.spec_params());
        }
        entries
    }

    /// The signed canonical query of this request, timestamped now.
    pub fn get_params(&self) -> (r: String)
        ensures
            exists|ts: u64| r@ == spec_canonical_query(self.spec_params(), self.recv_window, ts),
    {
        let entries = self.params();
        build_signed_request(&entries, self.recv_window)
    }
}

/// Signed query for the account's balances and permissions.
pub struct QueryAccountBuilder {
    pub recv_window: u64,
}

impl QueryAccountBuilder {
    /// A query with no window set.
    pub fn new() -> (r: QueryAccountBuilder)
        ensures
            r.recv_window == 0,
    {
        QueryAccountBuilder { recv_window: 0 }
    }

    /// Sets the receive window of the signed request.
    pub fn recv_window(self, recv_window: u64) -> (r: QueryAccountBuilder)
        ensures
            r.recv_window == recv_window,
    {
        QueryAccountBuilder { recv_window }
    }

    /// This query sends no caller entries at all.
    pub open spec fn spec_params(&self) -> Seq<(Seq<char>, Seq<char>)> {
        Seq::empty()
    }

    /// The caller entries, as an owned list: empty.
    pub fn params(&self) -> (r: Vec<(String, String)>)
        ensures
            pair_views(r@) == self.spec_params(),
    {
        let entries: Vec<(String, String)> = Vec::new();
        proof {
            assert(pair_views(entries@) =~= self.spec_params());
        }
        entries
    }

    /// The signed canonical query of this request, timestamped now.
    pub fn get_params(&self) -> (r: String)
        ensures
            exists|ts: u64| r@ == spec_canonical_query(self.spec_params(), self.recv_window, ts),
    {
        let entries = self.params();
        build_signed_request(&entries, self.recv_window)
    }
}

/// Signed query for the account's own trades on a symbol.
pub struct QueryMyTradesBuilder {
    pub symbol: String,
    pub order_id: Option<String>,
    pub start_time: Option<u64>,
    pub end_time: Option<u64>,
    pub from_id: Option<u64>,
    pub limit: Option<u16>,
    pub recv_window: u64,
}

impl QueryMyTradesBuilder {
    /// A query for the given symbol, with no range and no window set.
    pub fn new(symbol: String) -> (r: QueryMyTradesBuilder)
        ensures
            r.symbol == symbol,
            r.order_id is None,
            r.start_time is None,
            r.end_time is None,
            r.from_id is None,
            r.limit is None,
            r.recv_window == 0,
    {
        QueryMyTradesBuilder {
            symbol,
            order_id: None,
            start_time: None,
            end_time: None,
            from_id: None,
            limit: None,
            recv_window: 0,
        }
    }

    /// Sets the order whose trades are listed.
    pub fn order_id(self, order_id: String) -> (r: QueryMyTradesBuilder)
        ensures
            r == (QueryMyTradesBuilder { order_id: Some(order_id), ..self }),
    {
        QueryMyTradesBuilder { order_id: Some(order_id), ..self }
    }

    /// Sets the inclusive start of the time range, in milliseconds.
    pub fn start_time(self, start_time: u64) -> (r: QueryMyTradesBuilder)
        ensures
            r == (QueryMyTradesBuilder { start_time: Some(start_time), ..self }),
    {
        QueryMyTradesBuilder { start_time: Some(start_time), ..self }
    }

    /// Sets the inclusive end of the time range, in milliseconds.
    pub fn end_time(self, end_time: u64) -> (r: QueryMyTradesBuilder)
        ensures
            r == (QueryMyTradesBuilder { end_time: Some(end_time), ..self }),
    {
        QueryMyTradesBuilder { end_time: Some(end_time), ..self }
    }

    /// Sets the trade id to list from.
    pub fn from_id(self, from_id: u64) -> (r: QueryMyTradesBuilder)
        ensures
            r == (QueryMyTradesBuilder { from_id: Some(from_id), ..self }),
    {
        QueryMyTradesBuilder { from_id: Some(from_id), ..self }
    }

    /// Sets the maximum number of trades to return.
    pub fn limit(self, limit: u16) -> (r: QueryMyTradesBuilder)
        ensures
            r == (QueryMyTradesBuilder { limit: Some(limit), ..self }),
    {
        QueryMyTradesBuilder { limit: Some(limit), ..self }
    }

    /// Sets the receive window of the signed request.
    pub fn recv_window(self, recv_window: u64) -> (r: QueryMyTradesBuilder)
        ensures
            r == (QueryMyTradesBuilder { recv_window, ..self }),
    {
        QueryMyTradesBuilder { recv_window, ..self }
    }

    /// The caller entries this query sends, in the endpoint's order.
    pub open spec fn spec_params(&self) -> Seq<(Seq<char>, Seq<char>)> {
        seq![("symbol"@, self.symbol@)] + (match self.order_id {
            Some(ref id) => seq![("orderId"@, id@)],
            None => Seq::empty(),
        }) + (match self.start_time {
            Some(t) => seq![("startTime"@, spec_u64_string(t as nat))],
            None => Seq::empty(),
        }) + (match self.end_time {
            Some(t) => seq![("endTime"@, spec_u64_string(t as nat))],
            None => Seq::empty(),
        }) + (match self.from_id {
            Some(f) => seq![("fromId"@, spec_u64_string(f as nat))],
            None => Seq::empty(),
        }) + (match self.limit {
            Some(l) => seq![("limit"@, spec_u64_string(l as nat))],
            None => Seq::empty(),
        })
    }

    /// The caller entries, as an owned list.
    pub fn params(&self) -> (r: Vec<(String, String)>)
        ensures
            pair_views(r@) == self.spec_params(),
    {
        let mut entries: Vec<(String, String)> = Vec::new();
        push_param(&mut entries, "symbol", self.symbol.clone());
        match &self.order_id {
            Some(id) => push_param(&mut entries, "orderId", id.clone()),
            None => {},
        }
        match self.start_time {
            Some(t) => push_param(&mut entries, "startTime", u64_string(t)),
            None => {},
        }
        match self.end_time {
            Some(t) => push_param(&mut entries, "endTime", u64_string(t)),
            None => {},
        }
        match self.from_id {
            Some(f) => push_param(&mut entries, "fromId", u64_string(f)),
            None => {},
        }
        match self.limit {
            Some(l) => push_param(&mut entries, "limit", u64_string(l as u64)),
            None => {},
        }
        proof {
            assert(pair_views(entries@) =~= self.spec_params());
        }
        entries
    }

    /// The signed canonical query of this request, timestamped now.
    pub fn get_params(&self) -> (r: String)
        ensures
            exists|ts: u64| r@ == spec_canonical_query(self.spec_params(), self.recv_window, ts),
    {
        let entries = self.params();
        build_signed_request(&entries, self.recv_window)
    }
}

/// One order as the query endpoints report it, decimal values in the wire's
/// string form.
#[derive(Debug, Clone, PartialEq, Eq)]
pub struct QueryOrder {
    pub symbol: String,
    pub order_id: String,
    pub order_list_id: i32,
    pub client_order_id: String,
    pub price: String,
    pub orig_qty: String,
    pub executed_qty: String,
    pub cummulative_quote_qty: String,
    pub status: OrderStatus,
    pub time_in_force: TimeInForce,
    pub order_type: OrderType,
    pub side: OrderSide,
    pub stop_price: String,
    pub iceberg_qty: String,
    pub time: u64,
    pub update_time: u64,
    pub is_working: bool,
    pub working_time: u64,
    pub orig_quote_order_qty: String,
    pub self_trade_prevention_mode: String,
}

/// One of the account's own trades, decimal values in the wire's string
/// form.
#[derive(Debug, Clone, PartialEq, Eq)]
pub struct TradeHistory {
    pub id: u64,
    pub price: String,
    pub qty: String,
    pub commission: String,
    pub commission_asset: String,
    pub time: u64,
    pub is_buyer: bool,
    pub is_maker: bool,
    pub is_best_match: bool,
}

/// The account's standing: commission rates in basis points, capabilities,
/// and per-asset balances.
#[derive(Debug, Clone, PartialEq, Eq)]
pub struct AccountInformation {
    pub maker_commission: i64,
    pub taker_commission: i64,
    pub buyer_commission: i64,
    pub seller_commission: i64,
    pub can_trade: bool,
    pub can_withdraw: bool,
    pub can_deposit: bool,
    pub account_type: String,
    pub balances: Vec<Balance>,
    pub permissions: Vec<String>,
    pub update_time: i64,
}

/// One asset's free and locked balance, in the wire's string form.
#[derive(Debug, Clone, PartialEq, Eq)]
pub struct Balance {
    pub asset: String,
    pub free: String,
    pub locked: String,
}

} // verus!
