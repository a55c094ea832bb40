use binance::config::Config;
use binance::errors::BinanceError;
use binance::futures::websockets::{
    agg_trade_stream, all_book_ticker_stream, all_mini_ticker_stream, all_ticker_stream,
    book_ticker_stream, combined_stream, decode_frame, diff_book_depth_stream, event_from_tag,
    handle_frame, kline_stream, mini_ticker_stream, partial_book_depth_stream, ticker_stream,
    trade_stream, FrameAction, FuturesWebSockets, FuturesWebsocketEvent, SessionState, WsFrame,
};
use binance::futures::ws_model::{trade_event_from_value, TradeEvent};

const TRADE_BODY: &str = r#"{"e":"trade","E":1672515782136,"T":1672515782134,"s":"BTCUSDT","t":12345,"p":"16568.93","q":"0.014","X":"MARKET","m":true}"#;

fn expected_trade() -> TradeEvent {
    TradeEvent {
        event_time: 1672515782136,
        trade_order_time: 1672515782134,
        symbol: "BTCUSDT".to_string(),
        trade_id: 12345,
        price: "16568.93".to_string(),
        qty: "0.014".to_string(),
        order_type: "MARKET".to_string(),
        is_buyer_maker: true,
    }
}

#[test]
fn stream_topic_tokens() {
    assert_eq!(agg_trade_stream("ethusdt"), "ethusdt@aggTrade");
    assert_eq!(trade_stream("btcusdt"), "btcusdt@trade");
    assert_eq!(kline_stream("btcusdt", "1m"), "btcusdt@kline_1m");
    assert_eq!(mini_ticker_stream("btcusdt"), "btcusdt@miniTicker");
    assert_eq!(all_mini_ticker_stream(), "!miniTicker@arr");
    assert_eq!(ticker_stream("btcusdt"), "btcusdt@ticker");
    assert_eq!(all_ticker_stream(), "!ticker@arr");
    assert_eq!(book_ticker_stream("btcusdt"), "btcusdt@bookTicker");
    assert_eq!(all_book_ticker_stream(), "!bookTicker");
    assert_eq!(partial_book_depth_stream("btcusdt", 5, 100), "btcusdt@depth5@100ms");
    assert_eq!(partial_book_depth_stream("btcusdt", 20, 1000), "btcusdt@depth20@1000ms");
    assert_eq!(diff_book_depth_stream("btcusdt", 100), "btcusdt@depth@100ms");
}

#[test]
fn combined_stream_keeps_order_with_slash() {
    let topics = vec!["ethusdt@aggTrade".to_string(), "btcusdt@trade".to_string()];
    assert_eq!(combined_stream(&topics), "ethusdt@aggTrade/btcusdt@trade");
    assert_eq!(combined_stream(&vec![]), "");
    assert_eq!(combined_stream(&vec!["one".to_string()]), "one");
}

#[test]
fn connection_urls() {
    let ws = FuturesWebSockets::new();
    assert_eq!(
        ws.connect_url("btcusdt@trade"),
        "wss://fstream.binance.com/ws/btcusdt@trade"
    );
    let topics = vec!["ethusdt@aggTrade".to_string(), "btcusdt@trade".to_string()];
    assert_eq!(
        ws.connect_multiple_url(&topics),
        "wss://fstream.binance.com/stream?streams=ethusdt@aggTrade/btcusdt@trade"
    );
}

#[test]
fn trade_event_extracts_every_field() {
    let v: serde_json::Value = serde_json::from_str(TRADE_BODY).unwrap();
    assert_eq!(trade_event_from_value(&v), Some(expected_trade()));
}

#[test]
fn trade_event_missing_field_fails() {
    let v: serde_json::Value =
        serde_json::from_str(r#"{"e":"trade","E":1,"T":2,"s":"BTCUSDT"}"#).unwrap();
    assert_eq!(trade_event_from_value(&v), None);
}

#[test]
fn combined_and_bare_frames_decode_to_same_event() {
    let bare = decode_frame(TRADE_BODY).unwrap();
    let wrapped = format!(r#"{{"stream":"btcusdt@trade","data":{TRADE_BODY}}}"#);
    let enveloped = decode_frame(&wrapped).unwrap();
    let bare_trade = match bare {
        FuturesWebsocketEvent::Trade(t) => *t,
        other => panic!("expected a trade event, got {other:?}"),
    };
    let enveloped_trade = match enveloped {
        FuturesWebsocketEvent::Trade(t) => *t,
        other => panic!("expected a trade event, got {other:?}"),
    };
    assert_eq!(bare_trade, enveloped_trade);
    assert_eq!(bare_trade, expected_trade());
}

#[test]
fn unknown_discriminator_fails_decode() {
    let body = r#"{"e":"somethingElse","E":1}"#;
    let r = decode_frame(body);
    assert_eq!(
        r.unwrap_err(),
        BinanceError::Decode { payload_len: body.len() }
    );
    let v: serde_json::Value = serde_json::from_str(body).unwrap();
    assert!(event_from_tag("somethingElse", v).is_none());
}

#[test]
fn known_tags_select_their_variants() {
    let v: serde_json::Value = serde_json::from_str("{}").unwrap();
    assert!(matches!(
        event_from_tag("aggTrade", v.clone()),
        Some(FuturesWebsocketEvent::AggTrade(_))
    ));
    assert!(matches!(
        event_from_tag("kline", v.clone()),
        Some(FuturesWebsocketEvent::Kline(_))
    ));
    assert!(matches!(
        event_from_tag("24hrTicker", v.clone()),
        Some(FuturesWebsocketEvent::DayTicker(_))
    ));
    assert!(matches!(
        event_from_tag("24hrMiniTicker", v.clone()),
        Some(FuturesWebsocketEvent::DayMiniTicker(_))
    ));
    assert!(matches!(
        event_from_tag("depthUpdate", v.clone()),
        Some(FuturesWebsocketEvent::DepthOrderBook(_))
    ));
    assert!(matches!(
        event_from_tag("outboundAccountPosition", v.clone()),
        Some(FuturesWebsocketEvent::AccountPositionUpdate(_))
    ));
    assert!(matches!(
        event_from_tag("balanceUpdate", v.clone()),
        Some(FuturesWebsocketEvent::BalanceUpdate(_))
    ));
    assert!(matches!(
        event_from_tag("executionReport", v.clone()),
        Some(FuturesWebsocketEvent::OrderUpdate(_))
    ));
    assert!(matches!(
        event_from_tag("listStatus", v.clone()),
        Some(FuturesWebsocketEvent::ListOrderUpdate(_))
    ));
    // A known tag whose typed payload is incomplete still fails.
    assert!(event_from_tag("trade", v).is_none());
}

#[test]
fn malformed_frame_reports_its_size() {
    let body = "not json";
    assert_eq!(
        decode_frame(body).unwrap_err(),
        BinanceError::Decode { payload_len: body.len() }
    );
}

#[test]
fn close_frame_stops_the_loop_with_disconnected() {
    match handle_frame(WsFrame::Close) {
        FrameAction::Stop(e) => assert_eq!(e, BinanceError::Disconnected),
        other => panic!("expected the loop to stop, got {other:?}"),
    }
}

#[test]
fn control_frames_do_not_stop_the_loop() {
    assert!(matches!(handle_frame(WsFrame::Ping(vec![1])), FrameAction::Ignore));
    assert!(matches!(handle_frame(WsFrame::Pong(vec![])), FrameAction::Ignore));
    assert!(matches!(handle_frame(WsFrame::Binary(vec![0, 1])), FrameAction::Ignore));
}

#[test]
fn text_frame_dispatches_its_event() {
    match handle_frame(WsFrame::Text(TRADE_BODY.to_string())) {
        FrameAction::Dispatch(FuturesWebsocketEvent::Trade(t)) => {
            assert_eq!(*t, expected_trade());
        }
        other => panic!("expected a dispatched trade, got {other:?}"),
    }
}

#[test]
fn session_lifecycle() {
    let mut ws = FuturesWebSockets::new_with_options(Config::testnet());
    assert_eq!(ws.state, SessionState::Idle);

    // A failed handshake keeps the session idle and reports the failure.
    let failed = ws.on_handshake(false, "refused".to_string());
    assert_eq!(failed.unwrap_err(), BinanceError::Handshake("refused".to_string()));
    assert_eq!(ws.state, SessionState::Idle);

    // Disconnecting an idle session fails and changes nothing.
    assert!(ws.disconnect().is_err());
    assert_eq!(ws.state, SessionState::Idle);

    ws.on_handshake(true, String::new()).unwrap();
    assert_eq!(ws.state, SessionState::Connected);

    // Ordinary traffic keeps the session connected.
    assert!(matches!(ws.event_step(WsFrame::Ping(vec![])), FrameAction::Ignore));
    assert_eq!(ws.state, SessionState::Connected);
    assert!(matches!(
        ws.event_step(WsFrame::Text(TRADE_BODY.to_string())),
        FrameAction::Dispatch(_)
    ));
    assert_eq!(ws.state, SessionState::Connected);

    // A close frame tears the session down.
    match ws.event_step(WsFrame::Close) {
        FrameAction::Stop(e) => assert_eq!(e, BinanceError::Disconnected),
        other => panic!("expected the loop to stop, got {other:?}"),
    }
    assert_eq!(ws.state, SessionState::Closed);
}

#[test]
fn explicit_disconnect_closes_a_connected_session() {
    let mut ws = FuturesWebSockets::new();
    ws.on_handshake(true, String::new()).unwrap();
    assert!(ws.disconnect().is_ok());
    assert_eq!(ws.state, SessionState::Closed);
}
