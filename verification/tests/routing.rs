use binance::config::Config;
use binance::errors::BinanceError;
use binance::futures::account::FuturesAccount;
use binance::futures::futures_type::{FuturesInverseType, FuturesLinearType, FuturesType};
use binance::futures::router::{resolve, FuturesRoute, MarketType};
use binance::futures::userstream::UserStream;
use binance::rest_model::{OrderCancellation, OrderSide, TimeInForce};
use binance::signer::sign_query;
use binance::util::build_signed_request_with_timestamp;

#[test]
fn same_route_resolves_to_market_appropriate_paths() {
    let linear = resolve(MarketType::Linear, FuturesRoute::Ping);
    let inverse = resolve(MarketType::Inverse, FuturesRoute::Ping);
    assert_eq!(linear, "/fapi/v1/ping");
    assert_eq!(inverse, "/dapi/v1/ping");
    assert_ne!(linear, inverse);
}

#[test]
fn route_table_spot_checks() {
    assert_eq!(resolve(MarketType::Linear, FuturesRoute::Order), "/fapi/v1/order");
    assert_eq!(resolve(MarketType::Inverse, FuturesRoute::Order), "/dapi/v1/order");
    assert_eq!(resolve(MarketType::Linear, FuturesRoute::Account), "/fapi/v2/account");
    assert_eq!(resolve(MarketType::Inverse, FuturesRoute::Account), "/dapi/v1/account");
    assert_eq!(
        resolve(MarketType::Linear, FuturesRoute::PositionSide),
        "/fapi/v1/positionSide/dual"
    );
    assert_eq!(
        resolve(MarketType::Inverse, FuturesRoute::UserDataStream),
        "/dapi/v1/listenKey"
    );
}

#[test]
fn market_families_carry_their_hosts() {
    assert_eq!(FuturesLinearType::endpoint(), "https://fapi.binance.com");
    assert_eq!(FuturesInverseType::endpoint(), "https://dapi.binance.com");
    assert_eq!(FuturesLinearType::ws_endpoint(), "wss://fstream.binance.com");
    assert_eq!(FuturesInverseType::ws_endpoint(), "wss://dstream.binance.com");
    assert_eq!(FuturesLinearType::route(FuturesRoute::Time), "/fapi/v1/time");
    assert_eq!(FuturesInverseType::route(FuturesRoute::Time), "/dapi/v1/time");
}

#[test]
fn futures_account_host_selection() {
    let default_host =
        FuturesAccount::new_with_config::<FuturesInverseType>(None, None, &Config::new());
    assert_eq!(default_host.client.host, "https://dapi.binance.com");

    let overridden =
        FuturesAccount::new_with_config::<FuturesInverseType>(None, None, &Config::testnet());
    assert_eq!(overridden.client.host, "https://testnet.binancefuture.com");
}

#[test]
fn futures_get_api_uses_the_account_market() {
    let acct = FuturesAccount::new_with_config::<FuturesLinearType>(None, None, &Config::new());
    assert_eq!(acct.get_api(FuturesRoute::Balance), "/fapi/v2/balance");
}

#[test]
fn futures_order_shorthands_fill_the_request() {
    let acct = FuturesAccount::new_with_config::<FuturesLinearType>(None, None, &Config::new());
    let order = acct.limit_buy(
        "BTCUSDT".to_string(),
        "0.001".to_string(),
        "25000".to_string(),
        TimeInForce::GTC,
    );
    let pairs = order.params();
    assert_eq!(
        pairs,
        vec![
            ("symbol".to_string(), "BTCUSDT".to_string()),
            ("side".to_string(), "BUY".to_string()),
            ("type".to_string(), "LIMIT".to_string()),
            ("timeInForce".to_string(), "GTC".to_string()),
            ("quantity".to_string(), "0.001".to_string()),
            ("price".to_string(), "25000".to_string()),
        ]
    );

    let sell = acct.market_sell("ETHUSDT".to_string(), "1.5".to_string());
    assert_eq!(
        sell.params(),
        vec![
            ("symbol".to_string(), "ETHUSDT".to_string()),
            ("side".to_string(), "SELL".to_string()),
            ("type".to_string(), "MARKET".to_string()),
            ("quantity".to_string(), "1.5".to_string()),
        ]
    );
}

#[test]
fn futures_order_flags_render_per_field() {
    let acct = FuturesAccount::new_with_config::<FuturesLinearType>(None, None, &Config::new());
    let mut order = acct.market_buy("BTCUSDT".to_string(), "1".to_string());
    order.reduce_only = Some(true);
    order.price_protect = Some(true);
    assert_eq!(
        order.params(),
        vec![
            ("symbol".to_string(), "BTCUSDT".to_string()),
            ("side".to_string(), "BUY".to_string()),
            ("type".to_string(), "MARKET".to_string()),
            ("quantity".to_string(), "1".to_string()),
            ("reduceOnly".to_string(), "true".to_string()),
            ("priceProtect".to_string(), "TRUE".to_string()),
        ]
    );
}

#[test]
fn futures_place_order_requires_a_secret() {
    let acct = FuturesAccount::new_with_config::<FuturesLinearType>(
        Some("key".to_string()),
        None,
        &Config::new(),
    );
    let order = acct.market_buy("BTCUSDT".to_string(), "1".to_string());
    assert_eq!(acct.place_order(&order).unwrap_err(), BinanceError::MissingCredentials);
}

#[test]
fn futures_place_order_signs_against_the_family_route() {
    let acct = FuturesAccount::new_with_config::<FuturesLinearType>(
        Some("key".to_string()),
        Some("secret".to_string()),
        &Config::new(),
    );
    let order = acct.market_buy("BTCUSDT".to_string(), "1".to_string());
    let plan = acct.place_order(&order).unwrap();
    assert!(plan.url.starts_with("https://fapi.binance.com/fapi/v1/order?recvWindow=5000&timestamp="));
    assert!(plan.url.contains("&symbol=BTCUSDT&side=BUY&type=MARKET&quantity=1&signature="));
    assert_eq!(plan.api_key_header.as_deref(), Some("key"));
}

#[test]
fn futures_cancellation_prefers_its_own_window() {
    let acct = FuturesAccount::new_with_config::<FuturesLinearType>(
        Some("key".to_string()),
        Some("secret".to_string()),
        &Config::new(),
    );
    let mut cancel = OrderCancellation::new("BTCUSDT".to_string());
    cancel.order_id = Some("3229491".to_string());
    cancel.recv_window = Some(250);
    let plan = acct.cancel_order(&cancel).unwrap();
    assert!(plan.url.starts_with("https://fapi.binance.com/fapi/v1/order?recvWindow=250&timestamp="));
    assert!(plan.url.contains("&symbol=BTCUSDT&orderId=3229491&signature="));
}

#[test]
fn leverage_change_keeps_sorted_entry_order() {
    let acct = FuturesAccount::new_with_config::<FuturesLinearType>(
        Some("key".to_string()),
        Some("secret".to_string()),
        &Config::new(),
    );
    let plan = acct.change_initial_leverage("BTCUSDT".to_string(), 20).unwrap();
    assert!(plan.url.contains("&leverage=20&symbol=BTCUSDT&signature="));
}

#[test]
fn position_mode_switch_renders_the_flag() {
    let acct = FuturesAccount::new_with_config::<FuturesLinearType>(
        Some("key".to_string()),
        Some("secret".to_string()),
        &Config::new(),
    );
    let plan = acct.change_position_mode(true).unwrap();
    assert!(plan.url.starts_with(
        "https://fapi.binance.com/fapi/v1/positionSide/dual?recvWindow=5000&timestamp="
    ));
    assert!(plan.url.contains("&dualSidePosition=true&signature="));
}

#[test]
fn user_stream_plans() {
    let us = UserStream::new_with_config::<FuturesLinearType>(
        Some("key".to_string()),
        None,
        &Config::new(),
    );
    assert_eq!(us.start().url, "https://fapi.binance.com/fapi/v1/listenKey");
    assert_eq!(
        us.keep_alive("abc123").url,
        "https://fapi.binance.com/fapi/v1/listenKey?listenKey=abc123"
    );
    assert_eq!(
        us.close("abc123").url,
        "https://fapi.binance.com/fapi/v1/listenKey?listenKey=abc123"
    );
    assert_eq!(us.start().api_key_header.as_deref(), Some("key"));
}

#[test]
fn signed_plan_matches_hand_built_query() {
    // The same canonical string and signature, built from the parts.
    let acct = FuturesAccount::new_with_config::<FuturesLinearType>(
        None,
        Some("secret".to_string()),
        &Config::new(),
    );
    let plan = acct.cancel_all_open_orders("BTCUSDT".to_string()).unwrap();
    let query = plan.url.split('?').nth(1).unwrap();
    let (canonical, sig) = query.split_once("&signature=").unwrap();
    assert_eq!(sign_query("secret", canonical), sig);
    let ts: u64 = canonical
        .split("timestamp=")
        .nth(1)
        .unwrap()
        .split('&')
        .next()
        .unwrap()
        .parse()
        .unwrap();
    let expected = build_signed_request_with_timestamp(
        &vec![("symbol".to_string(), "BTCUSDT".to_string())],
        5000,
        ts,
    );
    assert_eq!(canonical, expected);
}

#[test]
fn market_type_parameter_renderings() {
    assert_eq!(OrderSide::Buy.param(), "BUY");
    assert_eq!(OrderSide::Sell.param(), "SELL");
    assert_eq!(TimeInForce::IOC.param(), "IOC");
    assert_eq!(binance::rest_model::OrderType::StopLossLimit.param(), "STOP_LOSS_LIMIT");
    assert_eq!(binance::rest_model::OrderResponse::ResultOnly.param(), "RESULT");
    assert_eq!(
        binance::rest_model::CancelReplaceMode::StopOnFailure.param(),
        "STOP_ON_FAILURE"
    );
    assert_eq!(binance::rest_model::PositionSide::Short.param(), "SHORT");
    assert_eq!(binance::rest_model::WorkingType::MarkPrice.param(), "MARK_PRICE");
    assert_eq!(binance::rest_model::OrderStatus::PartiallyFilled.param(), "PARTIALLY_FILLED");
}
