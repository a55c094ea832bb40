use binance::client::{check_response, parse_error_body};
use binance::config::Config;
use binance::errors::BinanceError;
use binance::futures::futures_type::FuturesLinearType;
use binance::futures::general::FuturesGeneral;
use binance::futures::general::{
    exchange_information_from_value, symbol_from_value, ExchangeInformation, Symbol,
};
use binance::spot::klines::{kline_from_row, klines_from_rows, KlineSummary};

#[test]
fn rejected_request_yields_structured_api_error() {
    let r = check_response(400, r#"{"code":-1121,"msg":"Invalid symbol."}"#.to_string());
    assert_eq!(
        r.unwrap_err(),
        BinanceError::Api { code: -1121, msg: "Invalid symbol.".to_string() }
    );
}

#[test]
fn unknown_server_failure_keeps_its_code() {
    let r = check_response(500, r#"{"code":-1000,"msg":"An unknown error occurred."}"#.to_string());
    match r.unwrap_err() {
        BinanceError::Api { code, .. } => assert_eq!(code, -1000),
        other => panic!("expected an api error, got {other:?}"),
    }
}

#[test]
fn success_status_hands_the_body_through() {
    let r = check_response(200, "{}".to_string());
    assert_eq!(r.unwrap(), "{}");
    assert!(check_response(204, String::new()).is_ok());
}

#[test]
fn shapeless_error_body_reports_its_size() {
    let r = check_response(502, "Bad Gateway".to_string());
    assert_eq!(r.unwrap_err(), BinanceError::Decode { payload_len: 11 });
}

#[test]
fn error_body_parsing() {
    assert_eq!(
        parse_error_body(r#"{"code":-2010,"msg":"insufficient balance"}"#),
        Some((-2010, "insufficient balance".to_string()))
    );
    assert_eq!(parse_error_body(r#"{"msg":"no code"}"#), None);
    assert_eq!(parse_error_body("[]"), None);
    assert_eq!(parse_error_body("not json"), None);
}

#[test]
fn error_messages_are_stable() {
    assert_eq!(
        BinanceError::MissingCredentials.message(),
        "signed request without a secret key"
    );
    assert_eq!(BinanceError::Disconnected.message(), "websocket disconnected");
    assert_eq!(
        BinanceError::UnsupportedRoute.message(),
        "route not defined for this market type"
    );
    assert_eq!(
        BinanceError::Api { code: -1121, msg: "Invalid symbol.".to_string() }.message(),
        "api error: Invalid symbol."
    );
    assert_eq!(
        BinanceError::Network("connection refused".to_string()).message(),
        "network error: connection refused"
    );
    assert_eq!(
        BinanceError::Handshake("upgrade rejected".to_string()).message(),
        "handshake error: upgrade rejected"
    );
    assert_eq!(
        BinanceError::Decode { payload_len: 12 }.message(),
        "response did not match the expected shape"
    );
    assert_eq!(
        BinanceError::UnknownSymbol("DOGE".to_string()).message(),
        "unknown symbol: DOGE"
    );
}

const KLINE_ROW: &str = r#"[1499040000000,"0.01634790","0.80000000","0.01575800","0.01577100","148976.11427815",1499644799999,"2434.19055334",308,"1756.87402397","28.46694368",""]"#;

#[test]
fn kline_row_decodes_into_summary() {
    let row: Vec<serde_json::Value> = serde_json::from_str(KLINE_ROW).unwrap();
    let k = kline_from_row(&row).unwrap();
    assert_eq!(
        k,
        KlineSummary {
            open_time: 1499040000000,
            open: "0.01634790".to_string(),
            high: "0.80000000".to_string(),
            low: "0.01575800".to_string(),
            close: "0.01577100".to_string(),
            volume: "148976.11427815".to_string(),
            close_time: 1499644799999,
            quote_asset_volume: "2434.19055334".to_string(),
            number_of_trades: 308,
            taker_buy_base_asset_volume: "1756.87402397".to_string(),
            taker_buy_quote_asset_volume: "28.46694368".to_string(),
        }
    );
}

#[test]
fn short_kline_row_fails() {
    let row: Vec<serde_json::Value> = serde_json::from_str("[1,\"2\"]").unwrap();
    assert_eq!(kline_from_row(&row), None);
}

#[test]
fn kline_batch_fails_on_one_bad_row() {
    let good: Vec<Vec<serde_json::Value>> =
        serde_json::from_str(&format!("[{KLINE_ROW},{KLINE_ROW}]")).unwrap();
    let decoded = klines_from_rows(&good).unwrap();
    assert_eq!(decoded.len(), 2);

    let mixed: Vec<Vec<serde_json::Value>> =
        serde_json::from_str(&format!("[{KLINE_ROW},[1]]")).unwrap();
    assert_eq!(klines_from_rows(&mixed), None);
}

const EXCHANGE_INFO: &str = r#"{
    "serverTime": 1565246363776,
    "symbols": [
        {"symbol":"BTCUSDT","status":"TRADING","baseAsset":"BTC","quoteAsset":"USDT"},
        {"symbol":"ETHUSDT","status":"TRADING","baseAsset":"ETH","quoteAsset":"USDT"}
    ]
}"#;

#[test]
fn exchange_information_decodes() {
    let v: serde_json::Value = serde_json::from_str(EXCHANGE_INFO).unwrap();
    let info = exchange_information_from_value(&v).unwrap();
    assert_eq!(info.server_time, 1565246363776);
    assert_eq!(info.symbols.len(), 2);
    assert_eq!(info.symbols[0].symbol, "BTCUSDT");
    assert_eq!(info.symbols[1].quote_asset, "USDT");
}

#[test]
fn symbol_entry_missing_field_fails() {
    let v: serde_json::Value = serde_json::from_str(r#"{"symbol":"BTCUSDT"}"#).unwrap();
    assert_eq!(symbol_from_value(&v), None);
}

fn sample_info() -> ExchangeInformation {
    let v: serde_json::Value = serde_json::from_str(EXCHANGE_INFO).unwrap();
    exchange_information_from_value(&v).unwrap()
}

#[test]
fn symbol_lookup_upper_cases_the_request() {
    let general = FuturesGeneral::new_with_config::<FuturesLinearType>(None, None, &Config::new());
    let info = sample_info();
    let hit = general.get_symbol_info(&info, "btcusdt").unwrap();
    assert_eq!(
        hit,
        Symbol {
            symbol: "BTCUSDT".to_string(),
            status: "TRADING".to_string(),
            base_asset: "BTC".to_string(),
            quote_asset: "USDT".to_string(),
        }
    );
    let miss = general.get_symbol_info(&info, "dogeusdt");
    assert_eq!(miss.unwrap_err(), BinanceError::UnknownSymbol("dogeusdt".to_string()));
}
