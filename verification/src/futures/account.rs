//! Signed futures account operations: order placement, the limit and market
//! shorthands, cancellation, positions, balances, leverage and position
//! mode.

use vstd::prelude::*;
use crate::client::{spec_signed_url, Client, HttpMethod, RequestPlan};
use crate::config::Config;
use crate::errors::BinanceError;
use crate::futures::futures_type::{spec_rest_endpoint, FuturesType};
use crate::futures::router::{resolve, spec_route_path, FuturesRoute, MarketType};
use crate::rest_model::{
    OrderCancellation, OrderSide, OrderType, PositionSide, TimeInForce, WorkingType,
};
use crate::util::{
    bool_param, pair_views, push_opt_param, push_param, spec_bool_param, spec_bool_param_upper,
    u64_string,
};

verus! {

/// Appends a `key=value` entry with the rendered position side when it is
/// set, and nothing otherwise.
fn push_opt_position_side(
    entries: &mut Vec<(String, String)>,
    key: &str,
    value: Option<PositionSide>,
)
    ensures
        pair_views(final(entries)@) == pair_views(old(entries)@) + (if value is Some {
            seq![(key@, value->Some_0.spec_param())]
        } else {
            Seq::empty()
        }),
{
    match value {
        Some(p) => {
            push_param(entries, key, p.param());
            proof {
                assert(pair_views(entries@) =~= pair_views(old(entries)@) + seq![
                    (key@, value->Some_0.spec_param()),
                ]);
            }
        },
        None => {
            proof {
                assert(pair_views(entries@) =~= pair_views(entries@) + Seq::<
                    (Seq<char>, Seq<char>),
                >::empty());
            }
        },
    }
}

/// Appends a `key=value` entry with the rendered time-in-force when it is
/// set, and nothing otherwise.
fn push_opt_tif(entries: &mut Vec<(String, String)>, key: &str, value: Option<TimeInForce>)
    ensures
        pair_views(final(entries)@) == pair_views(old(entries)@) + (if value is Some {
            seq![(key@, value->Some_0.spec_param())]
        } else {
            Seq::empty()
        }),
{
    match value {
        Some(t) => {
            push_param(entries, key, t.param());
            proof {
                assert(pair_views(entries@) =~= pair_views(old(entries)@) + seq![
                    (key@, value->Some_0.spec_param()),
                ]);
            }
        },
        None => {
            proof {
                assert(pair_views(entries@) =~= pair_views(entries@) + Seq::<
                    (Seq<char>, Seq<char>),
                >::empty());
            }
        },
    }
}

/// Appends a `key=value` entry with the lower-case rendering of the flag
/// when it is set, and nothing otherwise.
fn push_opt_bool(entries: &mut Vec<(String, String)>, key: &str, value: Option<bool>)
    ensures
        pair_views(final(entries)@) == pair_views(old(entries)@) + (if value is Some {
            seq![(key@, spec_bool_param(value->Some_0))]
        } else {
            Seq::empty()
        }),
{
    match value {
        Some(b) => {
            push_param(entries, key, bool_param(b));
            proof {
                assert(pair_views(entries@) =~= pair_views(old(entries)@) + seq![
                    (key@, spec_bool_param(value->Some_0)),
                ]);
            }
        },
        None => {
            proof {
                assert(pair_views(entries@) =~= pair_views(entries@) + Seq::<
                    (Seq<char>, Seq<char>),
                >::empty());
            }
        },
    }
}

/// Appends a `key=value` entry with the upper-case rendering of the flag
/// when it is set, and nothing otherwise — the price-protect flag is sent
/// upper-cased.
fn push_opt_bool_upper(entries: &mut Vec<(String, String)>, key: &str, value: Option<bool>)
    ensures
        pair_views(final(entries)@) == pair_views(old(entries)@) + (if value is Some {
            seq![(key@, spec_bool_param_upper(value->Some_0))]
        } else {
            Seq::empty()
        }),
{
    match value {
        Some(b) => {
            push_param(entries, key, crate::util::bool_to_string(b));
            proof {
                assert(pair_views(entries@) =~= pair_views(old(entries)@) + seq![
                    (key@, spec_bool_param_upper(value->Some_0)),
                ]);
            }
        },
        None => {
            proof {
                assert(pair_views(entries@) =~= pair_views(entries@) + Seq::<
                    (Seq<char>, Seq<char>),
                >::empty());
            }
        },
    }
}

/// Appends a `key=value` entry with the rendered working type when it is
/// set, and nothing otherwise.
fn push_opt_working_type(entries: &mut Vec<(String, String)>, key: &str, value: Option<WorkingType>)
    ensures
        pair_views(final(entries)@) == pair_views(old(entries)@) + (if value is Some {
            seq![(key@, value->Some_0.spec_param())]
        } else {
            Seq::empty()
        }),
{
    match value {
        Some(w) => {
            push_param(entries, key, w.param());
            proof {
                assert(pair_views(entries@) =~= pair_views(old(entries)@) + seq![
                    (key@, value->Some_0.spec_param()),
                ]);
            }
        },
        None => {
            proof {
                assert(pair_views(entries@) =~= pair_views(entries@) + Seq::<
                    (Seq<char>, Seq<char>),
                >::empty());
            }
        },
    }
}

/// The parameters of one futures order to place. Quantities and prices are
/// carried as already-rendered decimal strings.
pub struct OrderRequest {
    pub symbol: String,
    pub side: OrderSide,
    pub position_side: Option<PositionSide>,
    pub order_type: OrderType,
    pub time_in_force: Option<TimeInForce>,
    pub quantity: Option<String>,
    pub reduce_only: Option<bool>,
    pub price: Option<String>,
    pub stop_price: Option<String>,
    pub close_position: Option<bool>,
    pub activation_price: Option<String>,
    pub callback_rate: Option<String>,
    pub working_type: Option<WorkingType>,
    pub price_protect: Option<bool>,
    pub new_client_order_id: Option<String>,
}

impl OrderRequest {
    /// An order of the given symbol, side and type, everything else unset.
    pub fn new(symbol: String, side: OrderSide, order_type: OrderType) -> (r: OrderRequest)
        ensures
            r.symbol == symbol,
            r.side == side,
            r.order_type == order_type,
            r.position_side is None,
            r.time_in_force is None,
            r.quantity is None,
            r.reduce_only is None,
            r.price is None,
            r.stop_price is None,
            r.close_position is None,
            r.activation_price is None,
            r.callback_rate is None,
            r.working_type is None,
            r.price_protect is None,
            r.new_client_order_id is None,
    {
        OrderRequest {
            symbol,
            side,
            position_side: None,
            order_type,
            time_in_force: None,
            quantity: None,
            reduce_only: None,
            price: None,
            stop_price: None,
            close_position: None,
            activation_price: None,
            callback_rate: None,
            working_type: None,
            price_protect: None,
            new_client_order_id: None,
        }
    }

    /// The entries this order sends, in the endpoint's order: symbol, side
    /// and type always, then each option that is set. The price-protect flag
    /// is upper-cased; the other flags are lower-case.
    pub open spec fn spec_params(&self) -> Seq<(Seq<char>, Seq<char>)> {
        seq![("symbol"@, self.symbol@), ("side"@, self.side.spec_param())] + (
        if self.position_side is Some {
            seq![("positionSide"@, self.position_side->Some_0.spec_param())]
        } else {
            Seq::empty()
        }) + seq![("type"@, self.order_type.spec_param())] + (if self.time_in_force is Some {
            seq![("timeInForce"@, self.time_in_force->Some_0.spec_param())]
        } else {
            Seq::empty()
        }) + (if self.quantity is Some {
            seq![("quantity"@, self.quantity->Some_0@)]
        } else {
            Seq::empty()
        }) + (if self.reduce_only is Some {
            seq![("reduceOnly"@, spec_bool_param(self.reduce_only->Some_0))]
        } else {
            Seq::empty()
        }) + (if self.price is Some {
            seq![("price"@, self.price->Some_0@)]
        } else {
            Seq::empty()
        }) + (if self.stop_price is Some {
            seq![("stopPrice"@, self.stop_price->Some_0@)]
        } else {
            Seq::empty()
        }) + (if self.close_position is Some {
            seq![("closePosition"@, spec_bool_param(self.close_position->Some_0))]
        } else {
            Seq::empty()
        }) + (if self.activation_price is Some {
            seq![("activationPrice"@, self.activation_price->Some_0@)]
        } else {
            Seq::empty()
        }) + (if self.callback_rate is Some {
            seq![("callbackRate"@, self.callback_rate->Some_0@)]
        } else {
            Seq::empty()
        }) + (if self.working_type is Some {
            seq![("workingType"@, self.working_type->Some_0.spec_param())]
        } else {
            Seq::empty()
        }) + (if self.price_protect is Some {
            seq![("priceProtect"@, spec_bool_param_upper(self.price_protect->Some_0))]
        } else {
            Seq::empty()
        }) + (if self.new_client_order_id is Some {
            seq![("newClientOrderId"@, self.new_client_order_id->Some_0@)]
        } else {
            Seq::empty()
        })
    }

    /// The entries, as an owned list.
    pub fn params(&self) -> (r: Vec<(String, String)>)
        ensures
            pair_views(r@) == self.spec_params(),
    {
        let mut entries: Vec<(String, String)> = Vec::new();
        push_param(&mut entries, "symbol", self.symbol.clone());
        push_param(&mut entries, "side", self.side.param());
        proof {
            assert(pair_views(entries@) =~= seq![
                ("symbol"@, self.symbol@),
                ("side"@, self.side.spec_param()),
            ]);
        }
        push_opt_position_side(&mut entries, "positionSide", self.position_side);
        let ghost before_type = pair_views(entries@);
        push_param(&mut entries, "type", self.order_type.param());
        proof {
            assert(pair_views(entries@) =~= before_type + seq![
                ("type"@, self.order_type.spec_param()),
            ]);
        }
        push_opt_tif(&mut entries, "timeInForce", self.time_in_force);
        push_opt_param(&mut entries, "quantity", &self.quantity);
        push_opt_bool(&mut entries, "reduceOnly", self.reduce_only);
        push_opt_param(&mut entries, "price", &self.price);
        push_opt_param(&mut entries, "stopPrice", &self.stop_price);
        push_opt_bool(&mut entries, "closePosition", self.close_position);
        push_opt_param(&mut entries, "activationPrice", &self.activation_price);
        push_opt_param(&mut entries, "callbackRate", &self.callback_rate);
        push_opt_working_type(&mut entries, "workingType", self.working_type);
        push_opt_bool_upper(&mut entries, "priceProtect", self.price_protect);
        push_opt_param(&mut entries, "newClientOrderId", &self.new_client_order_id);
        proof {
            assert(pair_views(entries@) =~= self.spec_params());
        }
        entries
    }
}

/// Signed futures account operations of one market family.
pub struct FuturesAccount {
    pub client: Client,
    pub recv_window: u64,
    pub market: MarketType,
}

impl FuturesAccount {
    /// An account client of the family `T`: the family's own REST host
    /// unless the configuration overrides it.
    pub fn new_with_config<T: FuturesType>(
        api_key: Option<String>,
        secret_key: Option<String>,
        config: &Config,
    ) -> (r: FuturesAccount)
        ensures
            r.client.api_key == api_key,
            r.client.secret_key == secret_key,
            config.futures_rest_api_endpoint@.len() == 0 ==> r.client.host@ == spec_rest_endpoint(
                T::spec_market(),
            ),
            config.futures_rest_api_endpoint@.len() > 0 ==> r.client.host
                == config.futures_rest_api_endpoint,
            r.recv_window == config.recv_window,
            r.market == T::spec_market(),
    {
        let host = if config.futures_rest_api_endpoint.as_str().is_empty() {
            T::endpoint()
        } else {
            config.futures_rest_api_endpoint.clone()
        };
        FuturesAccount {
            client: Client::new(api_key, secret_key, host, config.timeout),
            recv_window: config.recv_window,
            market: T::market_type(),
        }
    }

    /// The concrete path of a route under this account's market family.
    pub fn get_api(&self, f: FuturesRoute) -> (r: String)
        ensures
            r@ == spec_route_path(self.market, f),
    {
        resolve(self.market, f)
    }

    /// Plans the signed placement of one order.
    pub fn place_order(&self, order: &OrderRequest) -> (r: Result<RequestPlan, BinanceError>)
        ensures
            (self.client.secret_key is None) <==> (r == Err::<RequestPlan, BinanceError>(
                BinanceError::MissingCredentials,
            )),
            (self.client.secret_key is Some) <==> r is Ok,
            r is Ok ==> {
                let plan = r->Ok_0;
                &&& plan.method == HttpMethod::Post
                &&& plan.api_key_header == self.client.api_key
                &&& exists|ts: u64|
                    plan.url@ == spec_signed_url(
                        self.client,
                        spec_route_path(self.market, FuturesRoute::Order),
                        order.spec_params(),
                        self.recv_window,
                        ts,
                    )
            },
    {
        let path = self.get_api(FuturesRoute::Order);
        let params = order.params();
        let ts = crate::util::get_timestamp();
        let r = self.client.plan_signed(HttpMethod::Post, path.as_str(), &params, self.recv_window, ts);
        proof {
            if r is Ok {
                assert((r->Ok_0).url@ == spec_signed_url(
                    self.client,
                    path@,
                    pair_views(params@),
                    self.recv_window,
                    ts,
                ));
            }
        }
        r
    }

    /// Plans the signed query for the open orders of a symbol.
    pub fn get_open_orders(&self, symbol: String) -> (r: Result<RequestPlan, BinanceError>)
        ensures
            (self.client.secret_key is None) <==> (r == Err::<RequestPlan, BinanceError>(
                BinanceError::MissingCredentials,
            )),
            (self.client.secret_key is Some) <==> r is Ok,
            r is Ok ==> {
                let plan = r->Ok_0;
                &&& plan.method == HttpMethod::Get
                &&& plan.api_key_header == self.client.api_key
                &&& exists|ts: u64|
                    plan.url@ == spec_signed_url(
                        self.client,
                        spec_route_path(self.market, FuturesRoute::OpenOrders),
                        seq![("symbol"@, symbol@)],
                        self.recv_window,
                        ts,
                    )
            },
    {
        let path = self.get_api(FuturesRoute::OpenOrders);
        let mut entries: Vec<(String, String)> = Vec::new();
        push_param(&mut entries, "symbol", symbol);
        proof {
            assert(pair_views(entries@) =~= seq![("symbol"@, symbol@)]);
        }
        let ts = crate::util::get_timestamp();
        let r = self.client.plan_signed(HttpMethod::Get, path.as_str(), &entries, self.recv_window, ts);
        proof {
            if r is Ok {
                assert((r->Ok_0).url@ == spec_signed_url(
                    self.client,
                    path@,
                    pair_views(entries@),
                    self.recv_window,
                    ts,
                ));
            }
        }
        r
    }

    /// A limit buy of the given quantity at the given price.
    pub fn limit_buy(
        &self,
        symbol: String,
        qty: String,
        price: String,
        time_in_force: TimeInForce,
    ) -> (r: OrderRequest)
        ensures
            r == (OrderRequest {
                time_in_force: Some(time_in_force),
                quantity: Some(qty),
                price: Some(price),
                ..OrderRequest::spec_base(symbol, OrderSide::Buy, OrderType::Limit)
            }),
    {
        let mut order = OrderRequest::new(symbol, OrderSide::Buy, OrderType::Limit);
        order.time_in_force = Some(time_in_force);
        order.quantity = Some(qty);
        order.price = Some(price);
        order
    }

    /// A limit sell of the given quantity at the given price.
    pub fn limit_sell(
        &self,
        symbol: String,
        qty: String,
        price: String,
        time_in_force: TimeInForce,
    ) -> (r: OrderRequest)
        ensures
            r == (OrderRequest {
                time_in_force: Some(time_in_force),
                quantity: Some(qty),
                price: Some(price),
                ..OrderRequest::spec_base(symbol, OrderSide::Sell, OrderType::Limit)
            }),
    {
        let mut order = OrderRequest::new(symbol, OrderSide::Sell, OrderType::Limit);
        order.time_in_force = Some(time_in_force);
        order.quantity = Some(qty);
        order.price = Some(price);
        order
    }

    /// A market buy of the given quantity.
    pub fn market_buy(&self, symbol: String, qty: String) -> (r: OrderRequest)
        ensures
            r == (OrderRequest {
                quantity: Some(qty),
                ..OrderRequest::spec_base(symbol, OrderSide::Buy, OrderType::Market)
            }),
    {
        let mut order = OrderRequest::new(symbol, OrderSide::Buy, OrderType::Market);
        order.quantity = Some(qty);
        order
    }

    /// A market sell of the given quantity.
    pub fn market_sell(&self, symbol: String, qty: String) -> (r: OrderRequest)
        ensures
            r == (OrderRequest {
                quantity: Some(qty),
                ..OrderRequest::spec_base(symbol, OrderSide::Sell, OrderType::Market)
            }),
    {
        let mut order = OrderRequest::new(symbol, OrderSide::Sell, OrderType::Market);
        order.quantity = Some(qty);
        order
    }

    /// Plans the signed cancellation of one order. The cancellation's own
    /// window, when set, replaces the account's.
    pub fn cancel_order(&self, o: &OrderCancellation) -> (r: Result<RequestPlan, BinanceError>)
        ensures
            (self.client.secret_key is None) <==> (r == Err::<RequestPlan, BinanceError>(
                BinanceError::MissingCredentials,
            )),
            (self.client.secret_key is Some) <==> r is Ok,
            r is Ok ==> {
                let plan = r->Ok_0;
                &&& plan.method == HttpMethod::Delete
                &&& plan.api_key_header == self.client.api_key
                &&& exists|ts: u64|
                    plan.url@ == spec_signed_url(
                        self.client,
                        spec_route_path(self.market, FuturesRoute::Order),
                        o.spec_params(),
                        o.spec_window(self.recv_window),
                        ts,
                    )
            },
    {
        let recv_window = match o.recv_window {
            Some(w) => w,
            None => self.recv_window,
        };
        let path = self.get_api(FuturesRoute::Order);
        let params = o.params();
        let ts = crate::util::get_timestamp();
        let r = self.client.plan_signed(HttpMethod::Delete, path.as_str(), &params, recv_window, ts);
        proof {
            if r is Ok {
                assert(recv_window == o.spec_window(self.recv_window));
                assert((r->Ok_0).url@ == spec_signed_url(
                    self.client,
                    path@,
                    pair_views(params@),
                    o.spec_window(self.recv_window),
                    ts,
                ));
            }
        }
        r
    }

    /// Plans the signed query for the positions of a symbol.
    pub fn position_information(&self, symbol: String) -> (r: Result<RequestPlan, BinanceError>)
        ensures
            (self.client.secret_key is None) <==> (r == Err::<RequestPlan, BinanceError>(
                BinanceError::MissingCredentials,
            )),
            (self.client.secret_key is Some) <==> r is Ok,
            r is Ok ==> {
                let plan = r->Ok_0;
                &&& plan.method == HttpMethod::Get
                &&& plan.api_key_header == self.client.api_key
                &&& exists|ts: u64|
                    plan.url@ == spec_signed_url(
                        self.client,
                        spec_route_path(self.market, FuturesRoute::PositionRisk),
                        seq![("symbol"@, symbol@)],
                        self.recv_window,
                        ts,
                    )
            },
    {
        let path = self.get_api(FuturesRoute::PositionRisk);
        let mut entries: Vec<(String, String)> = Vec::new();
        push_param(&mut entries, "symbol", symbol);
        proof {
            assert(pair_views(entries@) =~= seq![("symbol"@, symbol@)]);
        }
        let ts = crate::util::get_timestamp();
        let r = self.client.plan_signed(HttpMethod::Get, path.as_str(), &entries, self.recv_window, ts);
        proof {
            if r is Ok {
                assert((r->Ok_0).url@ == spec_signed_url(
                    self.client,
                    path@,
                    pair_views(entries@),
                    self.recv_window,
                    ts,
                ));
            }
        }
        r
    }

    /// Plans the signed query for the account's standing.
    pub fn account_information(&self) -> (r: Result<RequestPlan, BinanceError>)
        ensures
            (self.client.secret_key is None) <==> (r == Err::<RequestPlan, BinanceError>(
                BinanceError::MissingCredentials,
            )),
            (self.client.secret_key is Some) <==> r is Ok,
            r is Ok ==> {
                let plan = r->Ok_0;
                &&& plan.method == HttpMethod::Get
                &&& plan.api_key_header == self.client.api_key
                &&& exists|ts: u64|
                    plan.url@ == spec_signed_url(
                        self.client,
                        spec_route_path(self.market, FuturesRoute::Account),
                        Seq::empty(),
                        self.recv_window,
                        ts,
                    )
            },
    {
        let path = self.get_api(FuturesRoute::Account);
        let entries: Vec<(String, String)> = Vec::new();
        proof {
            assert(pair_views(entries@) =~= Seq::<(Seq<char>, Seq<char>)>::empty());
        }
        let ts = crate::util::get_timestamp();
        let r = self.client.plan_signed(HttpMethod::Get, path.as_str(), &entries, self.recv_window, ts);
        proof {
            if r is Ok {
                assert((r->Ok_0).url@ == spec_signed_url(
                    self.client,
                    path@,
                    pair_views(entries@),
                    self.recv_window,
                    ts,
                ));
            }
        }
        r
    }

    /// Plans the signed query for the account's balances.
    pub fn account_balance(&self) -> (r: Result<RequestPlan, BinanceError>)
        ensures
            (self.client.secret_key is None) <==> (r == Err::<RequestPlan, BinanceError>(
                BinanceError::MissingCredentials,
            )),
            (self.client.secret_key is Some) <==> r is Ok,
            r is Ok ==> {
                let plan = r->Ok_0;
                &&& plan.method == HttpMethod::Get
                &&& plan.api_key_header == self.client.api_key
                &&& exists|ts: u64|
                    plan.url@ == spec_signed_url(
                        self.client,
                        spec_route_path(self.market, FuturesRoute::Balance),
                        Seq::empty(),
                        self.recv_window,
                        ts,
                    )
            },
    {
        let path = self.get_api(FuturesRoute::Balance);
        let entries: Vec<(String, String)> = Vec::new();
        proof {
            assert(pair_views(entries@) =~= Seq::<(Seq<char>, Seq<char>)>::empty());
        }
        let ts = crate::util::get_timestamp();
        let r = self.client.plan_signed(HttpMethod::Get, path.as_str(), &entries, self.recv_window, ts);
        proof {
            if r is Ok {
                assert((r->Ok_0).url@ == spec_signed_url(
                    self.client,
                    path@,
                    pair_views(entries@),
                    self.recv_window,
                    ts,
                ));
            }
        }
        r
    }

    /// Plans the signed change of the initial leverage of a symbol. The
    /// entries go out in sorted key order: leverage before symbol.
    pub fn change_initial_leverage(&self, symbol: String, leverage: u8) -> (r: Result<
        RequestPlan,
        BinanceError,
    >)
        ensures
            (self.client.secret_key is None) <==> (r == Err::<RequestPlan, BinanceError>(
                BinanceError::MissingCredentials,
            )),
            (self.client.secret_key is Some) <==> r is Ok,
            r is Ok ==> {
                let plan = r->Ok_0;
                &&& plan.method == HttpMethod::Post
                &&& plan.api_key_header == self.client.api_key
                &&& exists|ts: u64|
                    plan.url@ == spec_signed_url(
                        self.client,
                        spec_route_path(self.market, FuturesRoute::ChangeInitialLeverage),
                        seq![
                            ("leverage"@, crate::util::spec_u64_string(leverage as nat)),
                            ("symbol"@, symbol@),
                        ],
                        self.recv_window,
                        ts,
                    )
            },
    {
        let path = self.get_api(FuturesRoute::ChangeInitialLeverage);
        let mut entries: Vec<(String, String)> = Vec::new();
        push_param(&mut entries, "leverage", u64_string(leverage as u64));
        push_param(&mut entries, "symbol", symbol);
        proof {
            assert(pair_views(entries@) =~= seq![
                ("leverage"@, crate::util::spec_u64_string(leverage as nat)),
                ("symbol"@, symbol@),
            ]);
        }
        let ts = crate::util::get_timestamp();
        let r = self.client.plan_signed(HttpMethod::Post, path.as_str(), &entries, self.recv_window, ts);
        proof {
            if r is Ok {
                assert((r->Ok_0).url@ == spec_signed_url(
                    self.client,
                    path@,
                    pair_views(entries@),
                    self.recv_window,
                    ts,
                ));
            }
        }
        r
    }

    /// Plans the signed switch between one-way and hedge position mode.
    pub fn change_position_mode(&self, dual_side_position: bool) -> (r: Result<
        RequestPlan,
        BinanceError,
    >)
        ensures
            (self.client.secret_key is None) <==> (r == Err::<RequestPlan, BinanceError>(
                BinanceError::MissingCredentials,
            )),
            (self.client.secret_key is Some) <==> r is Ok,
            r is Ok ==> {
                let plan = r->Ok_0;
                &&& plan.method == HttpMethod::Post
                &&& plan.api_key_header == self.client.api_key
                &&& exists|ts: u64|
                    plan.url@ == spec_signed_url(
                        self.client,
                        spec_route_path(self.market, FuturesRoute::PositionSide),
                        seq![("dualSidePosition"@, spec_bool_param(dual_side_position))],
                        self.recv_window,
                        ts,
                    )
            },
    {
        let path = self.get_api(FuturesRoute::PositionSide);
        let mut entries: Vec<(String, String)> = Vec::new();
        push_param(&mut entries, "dualSidePosition", bool_param(dual_side_position));
        proof {
            assert(pair_views(entries@) =~= seq![
                ("dualSidePosition"@, spec_bool_param(dual_side_position)),
            ]);
        }
        let ts = crate::util::get_timestamp();
        let r = self.client.plan_signed(HttpMethod::Post, path.as_str(), &entries, self.recv_window, ts);
        proof {
            if r is Ok {
                assert((r->Ok_0).url@ == spec_signed_url(
                    self.client,
                    path@,
                    pair_views(entries@),
                    self.recv_window,
                    ts,
                ));
            }
        }
        r
    }

    /// Plans the signed cancellation of every open order of a symbol.
    pub fn cancel_all_open_orders(&self, symbol: String) -> (r: Result<RequestPlan, BinanceError>)
        ensures
            (self.client.secret_key is None) <==> (r == Err::<RequestPlan, BinanceError>(
                BinanceError::MissingCredentials,
            )),
            (self.client.secret_key is Some) <==> r is Ok,
            r is Ok ==> {
                let plan = r->Ok_0;
                &&& plan.method == HttpMethod::Delete
                &&& plan.api_key_header == self.client.api_key
                &&& exists|ts: u64|
                    plan.url@ == spec_signed_url(
                        self.client,
                        spec_route_path(self.market, FuturesRoute::AllOpenOrders),
                        seq![("symbol"@, symbol@)],
                        self.recv_window,
                        ts,
                    )
            },
    {
        let path = self.get_api(FuturesRoute::AllOpenOrders);
        let mut entries: Vec<(String, String)> = Vec::new();
        push_param(&mut entries, "symbol", symbol);
        proof {
            assert(pair_views(entries@) =~= seq![("symbol"@, symbol@)]);
        }
        let ts = crate::util::get_timestamp();
        let r = self.client.plan_signed(HttpMethod::Delete, path.as_str(), &entries, self.recv_window, ts);
        proof {
            if r is Ok {
                assert((r->Ok_0).url@ == spec_signed_url(
                    self.client,
                    path@,
                    pair_views(entries@),
                    self.recv_window,
                    ts,
                ));
            }
        }
        r
    }
}

impl OrderRequest {
    /// The order with the given symbol, side and type and every option
    /// unset; the base the shorthand constructors build on.
    pub open spec fn spec_base(symbol: String, side: OrderSide, order_type: OrderType)
        -> OrderRequest {
        OrderRequest {
            symbol,
            side,
            position_side: None,
            order_type,
            time_in_force: None,
            quantity: None,
            reduce_only: None,
            price: None,
            stop_price: None,
            close_position: None,
            activation_price: None,
            callback_rate: None,
            working_type: None,
            price_protect: None,
            new_client_order_id: None,
        }
    }
}

} // verus!
