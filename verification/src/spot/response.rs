//! The order shape the account's query endpoints report.

use vstd::prelude::*;
use crate::rest_model::{OrderSide, OrderStatus, OrderType, TimeInForce};

verus! {

/// One order of the account, decimal values in the wire's string form.
#[derive(Debug, Clone, PartialEq, Eq)]
pub struct Order {
    pub symbol: String,
    pub order_id: u64,
    pub order_list_id: i32,
    pub client_order_id: String,
    pub price: String,
    pub orig_qty: String,
    pub executed_qty: String,
    pub cummulative_quote_qty: String,
    pub status: OrderStatus,
    pub time_in_force: TimeInForce,
    pub order_type: OrderType,
    pub side: OrderSide,
    pub stop_price: String,
    pub iceberg_qty: String,
    pub time: u64,
    pub update_time: u64,
    pub is_working: bool,
    pub orig_quote_order_qty: String,
}

} // verus!
