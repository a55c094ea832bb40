//! The trading facade: one method per signed order operation, each handing
//! back the builder for it.

use vstd::prelude::*;
use crate::client::Client;
use crate::rest_model::{CancelReplaceMode, OrderSide, OrderType};
use crate::spot::order::{
    CancelAllOpenOrdersBuilder, CancelOrderBuilder, CancelReplaceBuilder, PlaceOrderBuilder,
    TestPlaceOrderBuilder,
};

verus! {

/// Signed order endpoints of the spot API.
pub struct Trade {
    pub client: Client,
    pub recv_window: u64,
}

impl Trade {
    /// A test placement: validated by the server, never booked.
    pub fn test_place_order(&self, symbol: &str, side: OrderSide, order_type: OrderType) -> (r:
        TestPlaceOrderBuilder)
        ensures
            r.playload.symbol@ == symbol@,
            r.playload.side == side,
            r.playload.order_type == order_type,
            r.playload.time_in_force is None,
            r.playload.quantity is None,
            r.playload.quote_order_qty is None,
            r.playload.price is None,
            r.playload.new_client_order_id is None,
            r.playload.stop_price is None,
            r.playload.iceberg_qty is None,
            r.playload.new_order_resp_type is None,
            r.recv_window == 0,
    {
        TestPlaceOrderBuilder::new(symbol.to_owned(), side, order_type)
    }

    /// An order placement.
    pub fn place_order(&self, symbol: &str, side: OrderSide, order_type: OrderType) -> (r:
        PlaceOrderBuilder)
        ensures
            r.playload.symbol@ == symbol@,
            r.playload.side == side,
            r.playload.order_type == order_type,
            r.playload.time_in_force is None,
            r.playload.quantity is None,
            r.playload.quote_order_qty is None,
            r.playload.price is None,
            r.playload.new_client_order_id is None,
            r.playload.stop_price is None,
            r.playload.iceberg_qty is None,
            r.playload.new_order_resp_type is None,
            r.recv_window == 0,
    {
        PlaceOrderBuilder::new(symbol.to_owned(), side, order_type)
    }

    /// Cancellation of one order of a symbol.
    pub fn cancel_order(&self, symbol: &str) -> (r: CancelOrderBuilder)
        ensures
            r.playload.symbol@ == symbol@,
            r.playload.order_id is None,
            r.playload.orig_client_order_id is None,
            r.playload.new_client_order_id is None,
            r.recv_window == 0,
    {
        CancelOrderBuilder::new(symbol.to_owned())
    }

    /// Cancellation of every open order of a symbol.
    pub fn cancel_all_open_orders(&self, symbol: &str) -> (r: CancelAllOpenOrdersBuilder)
        ensures
            r.symbol@ == symbol@,
            r.recv_window == 0,
    {
        CancelAllOpenOrdersBuilder::new(symbol.to_owned())
    }

    /// A cancel-replace: one order leaves, another takes its place.
    pub fn cancel_replace_order(
        &self,
        symbol: &str,
        side: OrderSide,
        order_type: OrderType,
        cancel_replace_mode: CancelReplaceMode,
    ) -> (r: CancelReplaceBuilder)
        ensures
            r.playload.symbol@ == symbol@,
            r.playload.side == side,
            r.playload.order_type == order_type,
            r.playload.cancel_replace_mode == cancel_replace_mode,
            r.playload.time_in_force is None,
            r.playload.quantity is None,
            r.playload.quote_order_qty is None,
            r.playload.price is None,
            r.playload.cancel_new_client_order_id is None,
            r.playload.cancel_orig_client_order_id is None,
            r.playload.cancel_order_id is None,
            r.playload.new_client_order_id is None,
            r.playload.stop_price is None,
            r.playload.iceberg_qty is None,
            r.playload.new_order_resp_type is None,
            r.recv_window == 0,
    {
        CancelReplaceBuilder::new(symbol.to_owned(), side, order_type, cancel_replace_mode)
    }
}

} // verus!
