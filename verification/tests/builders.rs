use binance::api::Binance;
use binance::config::Config;
use binance::rest_model::{CancelReplaceMode, OrderSide, OrderType, TimeInForce};
use binance::spot::api::Spot;
use binance::spot::market::Market;
use binance::spot::query::{QueryAllOrdersBuilder, QueryMyTradesBuilder, QueryOrderBuilder};
use binance::spot::request::{GetOrderRequest, OrdersQuery};
use binance::spot::tickers::Ticker24hMultiBuilder;
use binance::util::build_signed_request_with_timestamp;

#[test]
fn depth_builder_query() {
    let market: Market = Binance::new(None, None);
    assert_eq!(market.get_depth("BTCUSDT").get_params(), "symbol=BTCUSDT");
    assert_eq!(market.get_depth("BTCUSDT").limit(50).get_params(), "symbol=BTCUSDT&limit=50");
}

#[test]
fn trades_builder_queries() {
    let market: Market = Binance::new(None, None);
    assert_eq!(market.get_trades("ETHUSDT").limit(5).get_params(), "symbol=ETHUSDT&limit=5");
    assert_eq!(
        market.get_historical_trades("ETHUSDT").limit(5).from_id(77).get_params(),
        "symbol=ETHUSDT&limit=5&fromId=77"
    );
    assert_eq!(
        market
            .get_agg_trades("ETHUSDT")
            .from_id(1)
            .start_time(100)
            .end_time(200)
            .limit(5)
            .get_params(),
        "symbol=ETHUSDT&fromId=1&startTime=100&endTime=200&limit=5"
    );
    assert_eq!(market.get_agg_trades("ETHUSDT").get_params(), "symbol=ETHUSDT");
}

#[test]
fn klines_builder_query() {
    let market: Market = Binance::new(None, None);
    assert_eq!(
        market.get_klines("ETHUSDT", "1m").limit(5).get_params(),
        "symbol=ETHUSDT&interval=1m&limit=5"
    );
    assert_eq!(
        market.get_klines("ETHUSDT", "1h").start_time(7).end_time(9).get_params(),
        "symbol=ETHUSDT&interval=1h&startTime=7&endTime=9"
    );
}

#[test]
fn ticker_builder_queries() {
    let market: Market = Binance::new(None, None);
    assert_eq!(market.get_ticker_24h("ETHUSDT").get_params(), "symbol=ETHUSDT");
    assert_eq!(market.get_last_price("ETHUSDT").get_params(), "symbol=ETHUSDT");
    assert_eq!(market.get_book_ticker("ETHUSDT").get_params(), "symbol=ETHUSDT");
    assert_eq!(market.symbol_request("ETHUSDT"), "symbol=ETHUSDT");
}

#[test]
fn multi_symbol_queries_render_a_json_array() {
    let symbols = vec!["ETHUSDT".to_string(), "BTCUSDT".to_string()];
    let q = Ticker24hMultiBuilder::new().symbols(symbols).get_params().unwrap();
    assert_eq!(q, r#"symbols=["ETHUSDT","BTCUSDT"]"#);
    assert_eq!(Ticker24hMultiBuilder::new().get_params(), None);

    let market: Market = Binance::new(None, None);
    let q2 = market
        .get_last_price_multi()
        .symbols(vec!["ETHUSDT".to_string()])
        .get_params()
        .unwrap();
    assert_eq!(q2, r#"symbols=["ETHUSDT"]"#);
    assert_eq!(market.get_book_ticker_multi().get_params(), None);
    assert_eq!(market.get_ticker_24h_multi().get_params(), None);
}

#[test]
fn query_order_builder_entries() {
    let b = QueryOrderBuilder::new("BTCUSDT".to_string())
        .order_id("42".to_string())
        .recv_window(500);
    assert_eq!(
        b.params(),
        vec![
            ("symbol".to_string(), "BTCUSDT".to_string()),
            ("orderId".to_string(), "42".to_string()),
        ]
    );
    assert_eq!(
        build_signed_request_with_timestamp(&b.params(), b.recv_window, 99),
        "recvWindow=500&timestamp=99&symbol=BTCUSDT&orderId=42"
    );
}

#[test]
fn query_all_orders_builder_entries() {
    let b = QueryAllOrdersBuilder::new("BTCUSDT".to_string())
        .order_id("42".to_string())
        .start_time(1)
        .end_time(2)
        .limit(10);
    assert_eq!(
        b.params(),
        vec![
            ("symbol".to_string(), "BTCUSDT".to_string()),
            ("orderId".to_string(), "42".to_string()),
            ("startTime".to_string(), "1".to_string()),
            ("endTime".to_string(), "2".to_string()),
            ("limit".to_string(), "10".to_string()),
        ]
    );
}

#[test]
fn query_my_trades_builder_entries() {
    let b = QueryMyTradesBuilder::new("BTCUSDT".to_string()).from_id(9).limit(10);
    assert_eq!(
        b.params(),
        vec![
            ("symbol".to_string(), "BTCUSDT".to_string()),
            ("fromId".to_string(), "9".to_string()),
            ("limit".to_string(), "10".to_string()),
        ]
    );
}

#[test]
fn account_facade_builders_sign_their_queries() {
    let spot: Spot = Binance::new_with_config(
        Some("key".to_string()),
        Some("secret".to_string()),
        &Config::testnet(),
    );
    let q = spot.account.get_open_orders("BTCUSDT").recv_window(600).get_params();
    assert!(q.starts_with("recvWindow=600&timestamp="));
    assert!(q.ends_with("&symbol=BTCUSDT"));

    let account_q = spot.account.get_account().get_params();
    assert!(account_q.starts_with("timestamp="));
    assert!(!account_q.contains('&'));
}

#[test]
fn place_order_builder_entries() {
    let spot: Spot = Binance::new(None, None);
    let b = spot
        .trade
        .place_order("BTCUSDT", OrderSide::Buy, OrderType::Limit)
        .time_in_force(TimeInForce::GTC)
        .price("25000".to_string())
        .quantity("0.001".to_string());
    assert_eq!(
        b.playload.params(),
        vec![
            ("symbol".to_string(), "BTCUSDT".to_string()),
            ("side".to_string(), "BUY".to_string()),
            ("type".to_string(), "LIMIT".to_string()),
            ("timeInForce".to_string(), "GTC".to_string()),
            ("quantity".to_string(), "0.001".to_string()),
            ("price".to_string(), "25000".to_string()),
        ]
    );
    let q = b.get_params();
    assert!(q.starts_with("timestamp="));
    assert!(q.contains("&symbol=BTCUSDT&side=BUY&type=LIMIT&timeInForce=GTC"));
}

#[test]
fn test_place_order_builder_entries() {
    let spot: Spot = Binance::new(None, None);
    let b = spot
        .trade
        .test_place_order("BTCUSDT", OrderSide::Buy, OrderType::Limit)
        .time_in_force(TimeInForce::GTC)
        .price("25000".to_string())
        .quantity("0.001".to_string())
        .recv_window(450);
    assert_eq!(b.recv_window, 450);
    let q = b.get_params();
    assert!(q.starts_with("recvWindow=450&timestamp="));
    assert!(q.ends_with("&symbol=BTCUSDT&side=BUY&type=LIMIT&timeInForce=GTC&quantity=0.001&price=25000"));
}

#[test]
fn cancel_order_builder_entries() {
    let spot: Spot = Binance::new(None, None);
    let b = spot.trade.cancel_order("BTCUSDT").order_id("3229491".to_string());
    assert_eq!(
        b.params(),
        vec![
            ("symbol".to_string(), "BTCUSDT".to_string()),
            ("orderId".to_string(), "3229491".to_string()),
        ]
    );
}

#[test]
fn cancel_all_open_orders_builder_entries() {
    let spot: Spot = Binance::new(None, None);
    let b = spot.trade.cancel_all_open_orders("BTCUSDT");
    assert_eq!(b.params(), vec![("symbol".to_string(), "BTCUSDT".to_string())]);
}

#[test]
fn cancel_replace_builder_entries() {
    let spot: Spot = Binance::new(None, None);
    let b = spot
        .trade
        .cancel_replace_order(
            "BTCUSDT",
            OrderSide::Buy,
            OrderType::Limit,
            CancelReplaceMode::StopOnFailure,
        )
        .cancel_order_id("3251081".to_string())
        .time_in_force(TimeInForce::GTC)
        .new_client_order_id("replacement".to_string())
        .price("24000".to_string())
        .quantity("0.001".to_string());
    assert_eq!(
        b.params(),
        vec![
            ("symbol".to_string(), "BTCUSDT".to_string()),
            ("side".to_string(), "BUY".to_string()),
            ("type".to_string(), "LIMIT".to_string()),
            ("cancelReplaceMode".to_string(), "STOP_ON_FAILURE".to_string()),
            ("timeInForce".to_string(), "GTC".to_string()),
            ("quantity".to_string(), "0.001".to_string()),
            ("price".to_string(), "24000".to_string()),
            ("cancelOrderId".to_string(), "3251081".to_string()),
            ("newClientOrderId".to_string(), "replacement".to_string()),
        ]
    );
}

#[test]
fn plain_request_shapes_render_their_entries() {
    let get_order = GetOrderRequest {
        symbol: "BTCUSDT".to_string(),
        order_id: Some(42),
        orig_client_order_id: None,
        recv_window: Some(100),
    };
    assert_eq!(
        get_order.params(),
        vec![
            ("symbol".to_string(), "BTCUSDT".to_string()),
            ("orderId".to_string(), "42".to_string()),
        ]
    );

    let query = OrdersQuery {
        symbol: "BTCUSDT".to_string(),
        order_id: None,
        start_time: Some(5),
        end_time: None,
        limit: Some(1000),
        recv_window: None,
    };
    assert_eq!(
        query.params(),
        vec![
            ("symbol".to_string(), "BTCUSDT".to_string()),
            ("startTime".to_string(), "5".to_string()),
            ("limit".to_string(), "1000".to_string()),
        ]
    );
}

#[test]
fn config_hosts_and_window() {
    let prod = Config::new();
    assert_eq!(prod.rest_api_endpoint, "https://api.binance.com");
    assert_eq!(prod.futures_ws_endpoint, "wss://fstream.binance.com");
    assert_eq!(prod.recv_window, 5000);
    let tuned = prod.set_recv_window(1234);
    assert_eq!(tuned.recv_window, 1234);
    assert_eq!(tuned.rest_api_endpoint, "https://api.binance.com");

    let testnet = Config::testnet();
    assert_eq!(testnet.rest_api_endpoint, "https://testnet.binance.vision");
    assert_eq!(testnet.futures_rest_api_endpoint, "https://testnet.binancefuture.com");
}

#[test]
fn spot_facades_share_credentials() {
    let spot: Spot = Binance::new_with_config(
        Some("key".to_string()),
        Some("secret".to_string()),
        &Config::testnet(),
    );
    assert_eq!(spot.account.client.host, "https://testnet.binance.vision");
    assert_eq!(spot.market.client.host, "https://testnet.binance.vision");
    assert_eq!(spot.trade.client.api_key.as_deref(), Some("key"));
    assert_eq!(spot.account.client.secret_key.as_deref(), Some("secret"));
}
