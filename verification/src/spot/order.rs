//! Signed order operations: test placement, placement, cancellation, and
//! cancel-replace, with their request and response shapes. Quantities and
//! prices are carried as already-rendered decimal strings, so the exact
//! bytes that are signed are fixed by the caller once.

use vstd::prelude::*;
use crate::rest_model::{CancelReplaceMode, OrderResponse, OrderSide, OrderType, TimeInForce};
use crate::util::{
    build_signed_request, pair_views, push_opt_param, push_param, spec_canonical_query,
};

verus! {

/// Appends a `key=value` entry with the rendered time-in-force when it is
/// set, and nothing otherwise.
fn push_opt_tif(entries: &mut Vec<(String, String)>, key: &str, value: Option<TimeInForce>)
    ensures
        pair_views(final(entries)@) == pair_views(old(entries)@) + (if value is Some {
            seq![(key@, value->Some_0.spec_param())]
        } else {
            Seq::empty()
        }),
{
    match value {
        Some(t) => {
            push_param(entries, key, t.param());
            proof {
                assert(pair_views(entries@) =~= pair_views(old(entries)@) + seq![
                    (key@, value->Some_0.spec_param()),
                ]);
            }
        },
        None => {
            proof {
                assert(pair_views(entries@) =~= pair_views(entries@) + Seq::<
                    (Seq<char>, Seq<char>),
                >::empty());
            }
        },
    }
}

/// Appends a `key=value` entry with the rendered response kind when it is
/// set, and nothing otherwise.
fn push_opt_resp(entries: &mut Vec<(String, String)>, key: &str, value: Option<OrderResponse>)
    ensures
        pair_views(final(entries)@) == pair_views(old(entries)@) + (if value is Some {
            seq![(key@, value->Some_0.spec_param())]
        } else {
            Seq::empty()
        }),
{
    match value {
        Some(t) => {
            push_param(entries, key, t.param());
            proof {
                assert(pair_views(entries@) =~= pair_views(old(entries)@) + seq![
                    (key@, value->Some_0.spec_param()),
                ]);
            }
        },
        None => {
            proof {
                assert(pair_views(entries@) =~= pair_views(entries@) + Seq::<
                    (Seq<char>, Seq<char>),
                >::empty());
            }
        },
    }
}

/// The parameters of one order to place.
pub struct OrderRequest {
    pub symbol: String,
    pub side: OrderSide,
    pub order_type: OrderType,
    pub time_in_force: Option<TimeInForce>,
    pub quantity: Option<String>,
    pub quote_order_qty: Option<String>,
    pub price: Option<String>,
    pub new_client_order_id: Option<String>,
    pub stop_price: Option<String>,
    pub iceberg_qty: Option<String>,
    pub new_order_resp_type: Option<OrderResponse>,
}

impl OrderRequest {
    /// An order of the given symbol, side and type, everything else unset.
    pub fn new(symbol: String, side: OrderSide, order_type: OrderType) -> (r: OrderRequest)
        ensures
            r.symbol == symbol,
            r.side == side,
            r.order_type == order_type,
            r.time_in_force is None,
            r.quantity is None,
            r.quote_order_qty is None,
            r.price is None,
            r.new_client_order_id is None,
            r.stop_price is None,
            r.iceberg_qty is None,
            r.new_order_resp_type is None,
    {
        OrderRequest {
            symbol,
            side,
            order_type,
            time_in_force: None,
            quantity: None,
            quote_order_qty: None,
            price: None,
            new_client_order_id: None,
            stop_price: None,
            iceberg_qty: None,
            new_order_resp_type: None,
        }
    }

    /// The entries this order sends, in the endpoint's order: symbol, side
    /// and type always, then each option that is set.
    pub open spec fn spec_params(&self) -> Seq<(Seq<char>, Seq<char>)> {
        seq![
            ("symbol"@, self.symbol@),
            ("side"@, self.side.spec_param()),
            ("type"@, self.order_type.spec_param()),
        ] + (if self.time_in_force is Some {
            seq![("timeInForce"@, self.time_in_force->Some_0.spec_param())]
        } else {
            Seq::empty()
        }) + (if self.quantity is Some {
            seq![("quantity"@, self.quantity->Some_0@)]
        } else {
            Seq::empty()
        }) + (if self.quote_order_qty is Some {
            seq![("quoteOrderQty"@, self.quote_order_qty->Some_0@)]
        } else {
            Seq::empty()
        }) + (if self.price is Some {
            seq![("price"@, self.price->Some_0@)]
        } else {
            Seq::empty()
        }) + (if self.new_client_order_id is Some {
            seq![("newClientOrderId"@, self.new_client_order_id->Some_0@)]
        } else {
            Seq::empty()
        }) + (if self.stop_price is Some {
            seq![("stopPrice"@, self.stop_price->Some_0@)]
        } else {
            Seq::empty()
        }) + (if self.iceberg_qty is Some {
            seq![("icebergQty"@, self.iceberg_qty->Some_0@)]
        } else {
            Seq::empty()
        }) + (if self.new_order_resp_type is Some {
            seq![("newOrderRespType"@, self.new_order_resp_type->Some_0.spec_param())]
        } else {
            Seq::empty()
        })
    }

    /// The entries, as an owned list.
    pub fn params(&self) -> (r: Vec<(String, String)>)
        ensures
            pair_views(r@) == self.spec_params(),
    {
        let mut entries: Vec<(String, String)> = Vec::new();
        push_param(&mut entries, "symbol", self.symbol.clone());
        push_param(&mut entries, "side", self.side.param());
        push_param(&mut entries, "type", self.order_type.param());
        proof {
            assert(pair_views(entries@) =~= seq![
                ("symbol"@, self.symbol@),
                ("side"@, self.side.spec_param()),
                ("type"@, self.order_type.spec_param()),
            ]);
        }
        push_opt_tif(&mut entries, "timeInForce", self.time_in_force);
        push_opt_param(&mut entries, "quantity", &self.quantity);
        push_opt_param(&mut entries, "quoteOrderQty", &self.quote_order_qty);
        push_opt_param(&mut entries, "price", &self.price);
        push_opt_param(&mut entries, "newClientOrderId", &self.new_client_order_id);
        push_opt_param(&mut entries, "stopPrice", &self.stop_price);
        push_opt_param(&mut entries, "icebergQty", &self.iceberg_qty);
        push_opt_resp(&mut entries, "newOrderRespType", self.new_order_resp_type);
        entries
    }
}

/// Signed test placement: validated by the server, never booked.
pub struct TestPlaceOrderBuilder {
    pub playload: OrderRequest,
    pub recv_window: u64,
}

impl TestPlaceOrderBuilder {
    /// A test order of the given symbol, side and type.
    pub fn new(symbol: String, side: OrderSide, order_type: OrderType) -> (r:
        TestPlaceOrderBuilder)
        ensures
            r.playload.symbol == symbol,
            r.playload.side == side,
            r.playload.order_type == order_type,
            r.playload.time_in_force is None,
            r.playload.quantity is None,
            r.playload.quote_order_qty is None,
            r.playload.price is None,
            r.playload.new_client_order_id is None,
            r.playload.stop_price is None,
            r.playload.iceberg_qty is None,
            r.playload.new_order_resp_type is None,
            r.recv_window == 0,
    {
        TestPlaceOrderBuilder { playload: OrderRequest::new(symbol, side, order_type), recv_window: 0 }
    }

    /// Sets how long the order stays live.
    pub fn time_in_force(self, time_in_force: TimeInForce) -> (r: TestPlaceOrderBuilder)
        ensures
            r.playload == (OrderRequest { time_in_force: Some(time_in_force), ..self.playload }),
            r.recv_window == self.recv_window,
    {
        TestPlaceOrderBuilder {
            playload: OrderRequest { time_in_force: Some(time_in_force), ..self.playload },
            ..self
        }
    }

    /// Sets the base-asset quantity, as its rendered decimal string.
    pub fn quantity(self, quantity: String) -> (r: TestPlaceOrderBuilder)
        ensures
            r.playload == (OrderRequest { quantity: Some(quantity), ..self.playload }),
            r.recv_window == self.recv_window,
    {
        TestPlaceOrderBuilder {
            playload: OrderRequest { quantity: Some(quantity), ..self.playload },
            ..self
        }
    }

    /// Sets the quote-asset quantity, as its rendered decimal string.
    pub fn quote_order_qty(self, quote_order_qty: String) -> (r: TestPlaceOrderBuilder)
        ensures
            r.playload == (OrderRequest { quote_order_qty: Some(quote_order_qty), ..self.playload }),
            r.recv_window == self.recv_window,
    {
        TestPlaceOrderBuilder {
            playload: OrderRequest { quote_order_qty: Some(quote_order_qty), ..self.playload },
            ..self
        }
    }

    /// Sets the limit price, as its rendered decimal string.
    pub fn price(self, price: String) -> (r: TestPlaceOrderBuilder)
        ensures
            r.playload == (OrderRequest { price: Some(price), ..self.playload }),
            r.recv_window == self.recv_window,
    {
        TestPlaceOrderBuilder {
            playload: OrderRequest { price: Some(price), ..self.playload },
            ..self
        }
    }

    /// Sets the client's own id for the new order.
    pub fn new_client_order_id(self, new_client_order_id: String) -> (r: TestPlaceOrderBuilder)
        ensures
            r.playload == (OrderRequest {
                new_client_order_id: Some(new_client_order_id),
                ..self.playload
            }),
            r.recv_window == self.recv_window,
    {
        TestPlaceOrderBuilder {
            playload: OrderRequest { new_client_order_id: Some(new_client_order_id), ..self.playload },
            ..self
        }
    }

    /// Sets the stop trigger price, as its rendered decimal string.
    pub fn stop_price(self, stop_price: String) -> (r: TestPlaceOrderBuilder)
        ensures
            r.playload == (OrderRequest { stop_price: Some(stop_price), ..self.playload }),
            r.recv_window == self.recv_window,
    {
        TestPlaceOrderBuilder {
            playload: OrderRequest { stop_price: Some(stop_price), ..self.playload },
            ..self
        }
    }

    /// Sets the visible iceberg quantity, as its rendered decimal string.
    pub fn iceberg_qty(self, iceberg_qty: String) -> (r: TestPlaceOrderBuilder)
        ensures
            r.playload == (OrderRequest { iceberg_qty: Some(iceberg_qty), ..self.playload }),
            r.recv_window == self.recv_window,
    {
        TestPlaceOrderBuilder {
            playload: OrderRequest { iceberg_qty: Some(iceberg_qty), ..self.playload },
            ..self
        }
    }

    /// Sets how much of the placed order the response reports.
    pub fn new_order_resp_type(self, new_order_resp_type: OrderResponse) -> (r:
        TestPlaceOrderBuilder)
        ensures
            r.playload == (OrderRequest {
                new_order_resp_type: Some(new_order_resp_type),
                ..self.playload
            }),
            r.recv_window == self.recv_window,
    {
        TestPlaceOrderBuilder {
            playload: OrderRequest { new_order_resp_type: Some(new_order_resp_type), ..self.playload },
            ..self
        }
    }

    /// Sets the receive window of the signed request.
    pub fn recv_window(self, recv_window: u64) -> (r: TestPlaceOrderBuilder)
        ensures
            r.playload == self.playload,
            r.recv_window == recv_window,
    {
        TestPlaceOrderBuilder { recv_window, ..self }
    }

    /// The signed canonical query of this request, timestamped now.
    pub fn get_params(&self) -> (r: String)
        ensures
            exists|ts: u64|
                r@ == spec_canonical_query(self.playload.spec_params(), self.recv_window, ts),
    {
        let entries = self.playload.params();
        build_signed_request(&entries, self.recv_window)
    }
}

/// Signed order placement.
pub struct PlaceOrderBuilder {
    pub playload: OrderRequest,
    pub recv_window: u64,
}

impl PlaceOrderBuilder {
    /// An order of the given symbol, side and type.
    pub fn new(symbol: String, side: OrderSide, order_type: OrderType) -> (r: PlaceOrderBuilder)
        ensures
            r.playload.symbol == symbol,
            r.playload.side == side,
            r.playload.order_type == order_type,
            r.playload.time_in_force is None,
            r.playload.quantity is None,
            r.playload.quote_order_qty is None,
            r.playload.price is None,
            r.playload.new_client_order_id is None,
            r.playload.stop_price is None,
            r.playload.iceberg_qty is None,
            r.playload.new_order_resp_type is None,
            r.recv_window == 0,
    {
        PlaceOrderBuilder { playload: OrderRequest::new(symbol, side, order_type), recv_window: 0 }
    }

    /// Sets how long the order stays live.
    pub fn time_in_force(self, time_in_force: TimeInForce) -> (r: PlaceOrderBuilder)
        ensures
            r.playload == (OrderRequest { time_in_force: Some(time_in_force), ..self.playload }),
            r.recv_window == self.recv_window,
    {
        PlaceOrderBuilder {
            playload: OrderRequest { time_in_force: Some(time_in_force), ..self.playload },
            ..self
        }
    }

    /// Sets the base-asset quantity, as its rendered decimal string.
    pub fn quantity(self, quantity: String) -> (r: PlaceOrderBuilder)
        ensures
            r.playload == (OrderRequest { quantity: Some(quantity), ..self.playload }),
            r.recv_window == self.recv_window,
    {
        PlaceOrderBuilder {
            playload: OrderRequest { quantity: Some(quantity), ..self.playload },
            ..self
        }
    }

    /// Sets the quote-asset quantity, as its rendered decimal string.
    pub fn quote_order_qty(self, quote_order_qty: String) -> (r: PlaceOrderBuilder)
        ensures
            r.playload == (OrderRequest { quote_order_qty: Some(quote_order_qty), ..self.playload }),
            r.recv_window == self.recv_window,
    {
        PlaceOrderBuilder {
            playload: OrderRequest { quote_order_qty: Some(quote_order_qty), ..self.playload },
            ..self
        }
    }

    /// Sets the limit price, as its rendered decimal string.
    pub fn price(self, price: String) -> (r: PlaceOrderBuilder)
        ensures
            r.playload == (OrderRequest { price: Some(price), ..self.playload }),
            r.recv_window == self.recv_window,
    {
        PlaceOrderBuilder {
            playload: OrderRequest { price: Some(price), ..self.playload },
            ..self
        }
    }

    /// Sets the client's own id for the new order.
    pub fn new_client_order_id(self, new_client_order_id: String) -> (r: PlaceOrderBuilder)
        ensures
            r.playload == (OrderRequest {
                new_client_order_id: Some(new_client_order_id),
                ..self.playload
            }),
            r.recv_window == self.recv_window,
    {
        PlaceOrderBuilder {
            playload: OrderRequest { new_client_order_id: Some(new_client_order_id), ..self.playload },
            ..self
        }
    }

    /// Sets the stop trigger price, as its rendered decimal string.
    pub fn stop_price(self, stop_price: String) -> (r: PlaceOrderBuilder)
        ensures
            r.playload == (OrderRequest { stop_price: Some(stop_price), ..self.playload }),
            r.recv_window == self.recv_window,
    {
        PlaceOrderBuilder {
            playload: OrderRequest { stop_price: Some(stop_price), ..self.playload },
            ..self
        }
    }

    /// Sets the visible iceberg quantity, as its rendered decimal string.
    pub fn iceberg_qty(self, iceberg_qty: String) -> (r: PlaceOrderBuilder)
        ensures
            r.playload == (OrderRequest { iceberg_qty: Some(iceberg_qty), ..self.playload }),
            r.recv_window == self.recv_window,
    {
        PlaceOrderBuilder {
            playload: OrderRequest { iceberg_qty: Some(iceberg_qty), ..self.playload },
            ..self
        }
    }

    /// Sets how much of the placed order the response reports.
    pub fn new_order_resp_type(self, new_order_resp_type: OrderResponse) -> (r: PlaceOrderBuilder)
        ensures
            r.playload == (OrderRequest {
                new_order_resp_type: Some(new_order_resp_type),
                ..self.playload
            }),
            r.recv_window == self.recv_window,
    {
        PlaceOrderBuilder {
            playload: OrderRequest { new_order_resp_type: Some(new_order_resp_type), ..self.playload },
            ..self
        }
    }

    /// The signed canonical query of this request, timestamped now.
    pub fn get_params(&self) -> (r: String)
        ensures
            exists|ts: u64|
                r@ == spec_canonical_query(self.playload.spec_params(), self.recv_window, ts),
    {
        let entries = self.playload.params();
        build_signed_request(&entries, self.recv_window)
    }
}

/// The parameters of one cancellation.
pub struct CancelOrderRequest {
    pub symbol: String,
    pub order_id: Option<String>,
    pub orig_client_order_id: Option<String>,
    pub new_client_order_id: Option<String>,
}

/// Signed cancellation of one order of a symbol.
pub struct CancelOrderBuilder {
    pub playload: CancelOrderRequest,
    pub recv_window: u64,
}

impl CancelOrderBuilder {
    /// A cancellation for the given symbol, with no id set yet.
    pub fn new(symbol: String) -> (r: CancelOrderBuilder)
        ensures
            r.playload.symbol == symbol,
            r.playload.order_id is None,
            r.playload.orig_client_order_id is None,
            r.playload.new_client_order_id is None,
            r.recv_window == 0,
    {
        CancelOrderBuilder {
            playload: CancelOrderRequest {
                symbol,
                order_id: None,
                orig_client_order_id: None,
                new_client_order_id: None,
            },
            recv_window: 0,
        }
    }

    /// Sets the exchange-assigned id of the order to cancel.
    pub fn order_id(self, order_id: String) -> (r: CancelOrderBuilder)
        ensures
            r.playload == (CancelOrderRequest { order_id: Some(order_id), ..self.playload }),
            r.recv_window == self.recv_window,
    {
        CancelOrderBuilder {
            playload: CancelOrderRequest { order_id: Some(order_id), ..self.playload },
            ..self
        }
    }

    /// Sets the client-assigned id of the order to cancel.
    pub fn orig_client_order_id(self, orig_client_order_id: String) -> (r: CancelOrderBuilder)
        ensures
            r.playload == (CancelOrderRequest {
                orig_client_order_id: Some(orig_client_order_id),
                ..self.playload
            }),
            r.recv_window == self.recv_window,
    {
        CancelOrderBuilder {
            playload: CancelOrderRequest {
                orig_client_order_id: Some(orig_client_order_id),
                ..self.playload
            },
            ..self
        }
    }

    /// Sets the client's own id for the cancellation itself.
    pub fn new_client_order_id(self, new_client_order_id: String) -> (r: CancelOrderBuilder)
        ensures
            r.playload == (CancelOrderRequest {
                new_client_order_id: Some(new_client_order_id),
                ..self.playload
            }),
            r.recv_window == self.recv_window,
    {
        CancelOrderBuilder {
            playload: CancelOrderRequest {
                new_client_order_id: Some(new_client_order_id),
                ..self.playload
            },
            ..self
        }
    }

    /// Sets the receive window of the signed request.
    pub fn recv_window(self, recv_window: u64) -> (r: CancelOrderBuilder)
        ensures
            r.playload == self.playload,
            r.recv_window == recv_window,
    {
        CancelOrderBuilder { recv_window, ..self }
    }

    /// The caller entries this cancellation sends, in the endpoint's order.
    pub open spec fn spec_params(&self) -> Seq<(Seq<char>, Seq<char>)> {
        seq![("symbol"@, self.playload.symbol@)] + (match self.playload.order_id {
            Some(ref id) => seq![("orderId"@, id@)],
            None => Seq::empty(),
        }) + (match self.playload.orig_client_order_id {
            Some(ref id) => seq![("origClientOrderId"@, id@)],
            None => Seq::empty(),
        }) + (match self.playload.new_client_order_id {
            Some(ref id) => seq![("newClientOrderId"@, id@)],
            None => Seq::empty(),
        })
    }

    /// The caller entries, as an owned list.
    pub fn params(&self) -> (r: Vec<(String, String)>)
        ensures
            pair_views(r@) == self.spec_params(),
    {
        let mut entries: Vec<(String, String)> = Vec::new();
        push_param(&mut entries, "symbol", self.playload.symbol.clone());
        match &self.playload.order_id {
            Some(id) => push_param(&mut entries, "orderId", id.clone()),
            None => {},
        }
        match &self.playload.orig_client_order_id {
            Some(id) => push_param(&mut entries, "origClientOrderId", id.clone()),
            None => {},
        }
        match &self.playload.new_client_order_id {
            Some(id) => push_param(&mut entries, "newClientOrderId", id.clone()),
            None => {},
        }
        proof {
            assert(pair_views(entries@) =~= self.spec_params());
        }
        entries
    }

    /// The signed canonical query of this request, timestamped now.
    pub fn get_params(&self) -> (r: String)
        ensures
            exists|ts: u64| r@ == spec_canonical_query(self.spec_params(), self.recv_window, ts),
    {
        let entries = self.params();
        build_signed_request(&entries, self.recv_window)
    }
}

/// Signed cancellation of every open order of a symbol.
pub struct CancelAllOpenOrdersBuilder {
    pub symbol: String,
    pub recv_window: u64,
}

impl CancelAllOpenOrdersBuilder {
    /// A cancellation for the given symbol.
    pub fn new(symbol: String) -> (r: CancelAllOpenOrdersBuilder)
        ensures
            r.symbol == symbol,
            r.recv_window == 0,
    {
        CancelAllOpenOrdersBuilder { symbol, recv_window: 0 }
    }

    /// Sets the receive window of the signed request.
    pub fn recv_window(self, recv_window: u64) -> (r: CancelAllOpenOrdersBuilder)
        ensures
            r.symbol == self.symbol,
            r.recv_window == recv_window,
    {
        CancelAllOpenOrdersBuilder { recv_window, ..self }
    }

    /// The caller entries this cancellation sends: the symbol alone.
    pub open spec fn spec_params(&self) -> Seq<(Seq<char>, Seq<char>)> {
        seq![("symbol"@, self.symbol@)]
    }

    /// The caller entries, as an owned list.
    pub fn params(&self) -> (r: Vec<(String, String)>)
        ensures
            pair_views(r@) == self.spec_params(),
    {
        let mut entries: Vec<(String, String)> = Vec::new();
        push_param(&mut entries, "symbol", self.symbol.clone());
        proof {
            assert(pair_views(entries@) =~= self.spec_params());
        }
        entries
    }

    /// The signed canonical query of this request, timestamped now.
    pub fn get_params(&self) -> (r: String)
        ensures
            exists|ts: u64| r@ == spec_canonical_query(self.spec_params(), self.recv_window, ts),
    {
        let entries = self.params();
        build_signed_request(&entries, self.recv_window)
    }
}

/// The parameters of one cancel-replace: which order leaves and what takes
/// its place.
pub struct CancelReplaceRequest {
    pub symbol: String,
    pub side: OrderSide,
    pub order_type: OrderType,
    pub cancel_replace_mode: CancelReplaceMode,
    pub time_in_force: Option<TimeInForce>,
    pub quantity: Option<String>,
    pub quote_order_qty: Option<String>,
    pub price: Option<String>,
    pub cancel_new_client_order_id: Option<String>,
    pub cancel_orig_client_order_id: Option<String>,
    pub cancel_order_id: Option<String>,
    pub new_client_order_id: Option<String>,
    pub stop_price: Option<String>,
    pub iceberg_qty: Option<String>,
    pub new_order_resp_type: Option<OrderResponse>,
}

/// Signed cancel-replace: cancels one order and places another in a single
/// call.
pub struct CancelReplaceBuilder {
    pub playload: CancelReplaceRequest,
    pub recv_window: u64,
}

impl CancelReplaceBuilder {
    /// A cancel-replace of the given symbol, side, type and failure mode.
    pub fn new(
        symbol: String,
        side: OrderSide,
        order_type: OrderType,
        cancel_replace_mode: CancelReplaceMode,
    ) -> (r: CancelReplaceBuilder)
        ensures
            r.playload.symbol == symbol,
            r.playload.side == side,
            r.playload.order_type == order_type,
            r.playload.cancel_replace_mode == cancel_replace_mode,
            r.playload.time_in_force is None,
            r.playload.quantity is None,
            r.playload.quote_order_qty is None,
            r.playload.price is None,
            r.playload.cancel_new_client_order_id is None,
            r.playload.cancel_orig_client_order_id is None,
            r.playload.cancel_order_id is None,
            r.playload.new_client_order_id is None,
            r.playload.stop_price is None,
            r.playload.iceberg_qty is None,
            r.playload.new_order_resp_type is None,
            r.recv_window == 0,
    {
        CancelReplaceBuilder {
            playload: CancelReplaceRequest {
                symbol,
                side,
                order_type,
                cancel_replace_mode,
                time_in_force: None,
                quantity: None,
                quote_order_qty: None,
                price: None,
                cancel_new_client_order_id: None,
                cancel_orig_client_order_id: None,
                cancel_order_id: None,
                new_client_order_id: None,
                stop_price: None,
                iceberg_qty: None,
                new_order_resp_type: None,
            },
            recv_window: 0,
        }
    }

    /// Sets how long the new order stays live.
    pub fn time_in_force(self, time_in_force: TimeInForce) -> (r: CancelReplaceBuilder)
        ensures
            r.playload == (CancelReplaceRequest {
                time_in_force: Some(time_in_force),
                ..self.playload
            }),
            r.recv_window == self.recv_window,
    {
        CancelReplaceBuilder {
            playload: CancelReplaceRequest { time_in_force: Some(time_in_force), ..self.playload },
            ..self
        }
    }

    /// Sets the base-asset quantity, as its rendered decimal string.
    pub fn quantity(self, quantity: String) -> (r: CancelReplaceBuilder)
        ensures
            r.playload == (CancelReplaceRequest { quantity: Some(quantity), ..self.playload }),
            r.recv_window == self.recv_window,
    {
        CancelReplaceBuilder {
            playload: CancelReplaceRequest { quantity: Some(quantity), ..self.playload },
            ..self
        }
    }

    /// Sets the quote-asset quantity, as its rendered decimal string.
    pub fn quote_order_qty(self, quote_order_qty: String) -> (r: CancelReplaceBuilder)
        ensures
            r.playload == (CancelReplaceRequest {
                quote_order_qty: Some(quote_order_qty),
                ..self.playload
            }),
            r.recv_window == self.recv_window,
    {
        CancelReplaceBuilder {
            playload: CancelReplaceRequest { quote_order_qty: Some(quote_order_qty), ..self.playload },
            ..self
        }
    }

    /// Sets the limit price, as its rendered decimal string.
    pub fn price(self, price: String) -> (r: CancelReplaceBuilder)
        ensures
            r.playload == (CancelReplaceRequest { price: Some(price), ..self.playload }),
            r.recv_window == self.recv_window,
    {
        CancelReplaceBuilder {
            playload: CancelReplaceRequest { price: Some(price), ..self.playload },
            ..self
        }
    }

    /// Sets the client's own id for the cancellation half.
    pub fn cancel_new_client_order_id(self, cancel_new_client_order_id: String) -> (r:
        CancelReplaceBuilder)
        ensures
            r.playload == (CancelReplaceRequest {
                cancel_new_client_order_id: Some(cancel_new_client_order_id),
                ..self.playload
            }),
            r.recv_window == self.recv_window,
    {
        CancelReplaceBuilder {
            playload: CancelReplaceRequest {
                cancel_new_client_order_id: Some(cancel_new_client_order_id),
                ..self.playload
            },
            ..self
        }
    }

    /// Sets the client-assigned id of the order to cancel.
    pub fn cancel_orig_client_order_id(self, cancel_orig_client_order_id: String) -> (r:
        CancelReplaceBuilder)
        ensures
            r.playload == (CancelReplaceRequest {
                cancel_orig_client_order_id: Some(cancel_orig_client_order_id),
                ..self.playload
            }),
            r.recv_window == self.recv_window,
    {
        CancelReplaceBuilder {
            playload: CancelReplaceRequest {
                cancel_orig_client_order_id: Some(cancel_orig_client_order_id),
                ..self.playload
            },
            ..self
        }
    }

    /// Sets the exchange-assigned id of the order to cancel.
    pub fn cancel_order_id(self, cancel_order_id: String) -> (r: CancelReplaceBuilder)
        ensures
            r.playload == (CancelReplaceRequest {
                cancel_order_id: Some(cancel_order_id),
                ..self.playload
            }),
            r.recv_window == self.recv_window,
    {
        CancelReplaceBuilder {
            playload: CancelReplaceRequest { cancel_order_id: Some(cancel_order_id), ..self.playload },
            ..self
        }
    }

    /// Sets the client's own id for the new order.
    pub fn new_client_order_id(self, new_client_order_id: String) -> (r: CancelReplaceBuilder)
        ensures
            r.playload == (CancelReplaceRequest {
                new_client_order_id: Some(new_client_order_id),
                ..self.playload
            }),
            r.recv_window == self.recv_window,
    {
        CancelReplaceBuilder {
            playload: CancelReplaceRequest {
                new_client_order_id: Some(new_client_order_id),
                ..self.playload
            },
            ..self
        }
    }

    /// Sets the stop trigger price, as its rendered decimal string.
    pub fn stop_price(self, stop_price: String) -> (r: CancelReplaceBuilder)
        ensures
            r.playload == (CancelReplaceRequest { stop_price: Some(stop_price), ..self.playload }),
            r.recv_window == self.recv_window,
    {
        CancelReplaceBuilder {
            playload: CancelReplaceRequest { stop_price: Some(stop_price), ..self.playload },
            ..self
        }
    }

    /// Sets the visible iceberg quantity, as its rendered decimal string.
    pub fn iceberg_qty(self, iceberg_qty: String) -> (r: CancelReplaceBuilder)
        ensures
            r.playload == (CancelReplaceRequest { iceberg_qty: Some(iceberg_qty), ..self.playload }),
            r.recv_window == self.recv_window,
    {
        CancelReplaceBuilder {
            playload: CancelReplaceRequest { iceberg_qty: Some(iceberg_qty), ..self.playload },
            ..self
        }
    }

    /// Sets how much of the placed order the response reports.
    pub fn new_order_resp_type(self, new_order_resp_type: OrderResponse) -> (r:
        CancelReplaceBuilder)
        ensures
            r.playload == (CancelReplaceRequest {
                new_order_resp_type: Some(new_order_resp_type),
                ..self.playload
            }),
            r.recv_window == self.recv_window,
    {
        CancelReplaceBuilder {
            playload: CancelReplaceRequest {
                new_order_resp_type: Some(new_order_resp_type),
                ..self.playload
            },
            ..self
        }
    }

    /// Sets the receive window of the signed request.
    pub fn recv_window(self, recv_window: u64) -> (r: CancelReplaceBuilder)
        ensures
            r.playload == self.playload,
            r.recv_window == recv_window,
    {
        CancelReplaceBuilder { recv_window, ..self }
    }

    /// The caller entries this request sends, in the endpoint's order.
    pub open spec fn spec_params(&self) -> Seq<(Seq<char>, Seq<char>)> {
        seq![
            ("symbol"@, self.playload.symbol@),
            ("side"@, self.playload.side.spec_param()),
            ("type"@, self.playload.order_type.spec_param()),
            ("cancelReplaceMode"@, self.playload.cancel_replace_mode.spec_param()),
        ] + (if self.playload.time_in_force is Some {
            seq![("timeInForce"@, self.playload.time_in_force->Some_0.spec_param())]
        } else {
            Seq::empty()
        }) + (if self.playload.quantity is Some {
            seq![("quantity"@, self.playload.quantity->Some_0@)]
        } else {
            Seq::empty()
        }) + (if self.playload.quote_order_qty is Some {
            seq![("quoteOrderQty"@, self.playload.quote_order_qty->Some_0@)]
        } else {
            Seq::empty()
        }) + (if self.playload.price is Some {
            seq![("price"@, self.playload.price->Some_0@)]
        } else {
            Seq::empty()
        }) + (if self.playload.cancel_new_client_order_id is Some {
            seq![("cancelNewClientOrderId"@, self.playload.cancel_new_client_order_id->Some_0@)]
        } else {
            Seq::empty()
        }) + (if self.playload.cancel_orig_client_order_id is Some {
            seq![("cancelOrigClientOrderId"@, self.playload.cancel_orig_client_order_id->Some_0@)]
        } else {
            Seq::empty()
        }) + (if self.playload.cancel_order_id is Some {
            seq![("cancelOrderId"@, self.playload.cancel_order_id->Some_0@)]
        } else {
            Seq::empty()
        }) + (if self.playload.new_client_order_id is Some {
            seq![("newClientOrderId"@, self.playload.new_client_order_id->Some_0@)]
        } else {
            Seq::empty()
        }) + (if self.playload.stop_price is Some {
            seq![("stopPrice"@, self.playload.stop_price->Some_0@)]
        } else {
            Seq::empty()
        }) + (if self.playload.iceberg_qty is Some {
            seq![("icebergQty"@, self.playload.iceberg_qty->Some_0@)]
        } else {
            Seq::empty()
        }) + (if self.playload.new_order_resp_type is Some {
            seq![("newOrderRespType"@, self.playload.new_order_resp_type->Some_0.spec_param())]
        } else {
            Seq::empty()
        })
    }

    /// The caller entries, as an owned list.
    pub fn params(&self) -> (r: Vec<(String, String)>)
        ensures
            pair_views(r@) == self.spec_params(),
    {
        let mut entries: Vec<(String, String)> = Vec::new();
        push_param(&mut entries, "symbol", self.playload.symbol.clone());
        push_param(&mut entries, "side", self.playload.side.param());
        push_param(&mut entries, "type", self.playload.order_type.param());
        push_param(&mut entries, "cancelReplaceMode", self.playload.cancel_replace_mode.param());
        proof {
            assert(pair_views(entries@) =~= seq![
                ("symbol"@, self.playload.symbol@),
                ("side"@, self.playload.side.spec_param()),
                ("type"@, self.playload.order_type.spec_param()),
                ("cancelReplaceMode"@, self.playload.cancel_replace_mode.spec_param()),
            ]);
        }
        push_opt_tif(&mut entries, "timeInForce", self.playload.time_in_force);
        push_opt_param(&mut entries, "quantity", &self.playload.quantity);
        push_opt_param(&mut entries, "quoteOrderQty", &self.playload.quote_order_qty);
        push_opt_param(&mut entries, "price", &self.playload.price);
        push_opt_param(
            &mut entries,
            "cancelNewClientOrderId",
            &self.playload.cancel_new_client_order_id,
        );
        push_opt_param(
            &mut entries,
            "cancelOrigClientOrderId",
            &self.playload.cancel_orig_client_order_id,
        );
        push_opt_param(&mut entries, "cancelOrderId", &self.playload.cancel_order_id);
        push_opt_param(&mut entries, "newClientOrderId", &self.playload.new_client_order_id);
        push_opt_param(&mut entries, "stopPrice", &self.playload.stop_price);
        push_opt_param(&mut entries, "icebergQty", &self.playload.iceberg_qty);
        push_opt_resp(&mut entries, "newOrderRespType", self.playload.new_order_resp_type);
        entries
    }

    /// The signed canonical query of this request, timestamped now.
    pub fn get_params(&self) -> (r: String)
        ensures
            exists|ts: u64| r@ == spec_canonical_query(self.spec_params(), self.recv_window, ts),
    {
        let entries = self.params();
        build_signed_request(&entries, self.recv_window)
    }
}

/// One fill of a placed order, decimal values in the wire's string form.
#[derive(Debug, Clone, PartialEq, Eq)]
pub struct Fill {
    pub price: String,
    pub qty: String,
    pub commission: String,
    pub commission_asset: String,
    pub trade_id: i64,
}

/// A placed order as the endpoint reports it, decimal values in the wire's
/// string form.
#[derive(Debug, Clone, PartialEq, Eq)]
pub struct PlaceOrder {
    pub symbol: String,
    pub order_id: String,
    pub client_order_id: String,
    pub transact_time: u64,
    pub price: String,
    pub orig_qty: String,
    pub executed_qty: String,
    pub cummulative_quote_qty: String,
    pub status: crate::rest_model::OrderStatus,
    pub time_in_force: TimeInForce,
    pub order_type: OrderType,
    pub side: OrderSide,
    pub working_time: u64,
    pub fills: Vec<Fill>,
    pub self_trade_prevention_mode: String,
}

/// A cancelled order as the endpoint reports it.
#[derive(Debug, Clone, PartialEq, Eq)]
pub struct OrderCanceled {
    pub symbol: String,
    pub orig_client_order_id: String,
    pub order_id: String,
    pub order_list_id: i64,
    pub client_order_id: String,
    pub transact_time: i64,
    pub price: String,
    pub orig_qty: String,
    pub executed_qty: String,
    pub cummulative_quote_qty: String,
    pub status: String,
    pub time_in_force: String,
    pub order_type: String,
    pub side: String,
    pub self_trade_prevention_mode: String,
}

/// The outcome of a cancel-replace: both halves, as the endpoint reports
/// them.
#[derive(Debug, Clone, PartialEq, Eq)]
pub struct OrderCanceledReplaced {
    pub cancel_result: String,
    pub new_order_result: String,
    pub cancel_response: OrderCanceled,
    pub new_order_response: PlaceOrder,
}

} // verus!
