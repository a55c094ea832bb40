//! The account facade: one method per signed account query, each handing
//! back the builder for it.

use vstd::prelude::*;
use crate::client::Client;
use crate::spot::query::{
    QueryAccountBuilder, QueryAllOrdersBuilder, QueryMyTradesBuilder, QueryOpenOrdersBuilder,
    QueryOrderBuilder,
};

verus! {

/// Signed account endpoints of the spot API.
pub struct Account {
    pub client: Client,
    pub recv_window: u64,
}

impl Account {
    /// Lookup of one order of a symbol.
    pub fn get_order(&self, symbol: &str) -> (r: QueryOrderBuilder)
        ensures
            r.symbol@ == symbol@,
            r.order_id is None,
            r.orig_client_order_id is None,
            r.recv_window == 0,
    {
        QueryOrderBuilder::new(symbol.to_owned())
    }

    /// The open orders of a symbol.
    pub fn get_open_orders(&self, symbol: &str) -> (r: QueryOpenOrdersBuilder)
        ensures
            r.symbol@ == symbol@,
            r.recv_window == 0,
    {
        QueryOpenOrdersBuilder::new(symbol.to_owned())
    }

    /// The order history of a symbol.
    pub fn get_all_orders(&self, symbol: &str) -> (r: QueryAllOrdersBuilder)
        ensures
            r.symbol@ == symbol@,
            r.order_id is None,
            r.start_time is None,
            r.end_time is None,
            r.limit is None,
            r.recv_window == 0,
    {
        QueryAllOrdersBuilder::new(symbol.to_owned())
    }

    /// The account's balances and permissions.
    pub fn get_account(&self) -> (r: QueryAccountBuilder)
        ensures
            r.recv_window == 0,
    {
        QueryAccountBuilder::new()
    }

    /// The account's own trades on a symbol.
    pub fn get_my_trades(&self, symbol: &str) -> (r: QueryMyTradesBuilder)
        ensures
            r.symbol@ == symbol@,
            r.order_id is None,
            r.start_time is None,
            r.end_time is None,
            r.from_id is None,
            r.limit is None,
            r.recv_window == 0,
    {
        QueryMyTradesBuilder::new(symbol.to_owned())
    }
}

} // verus!
