pub mod account;
pub mod api;
pub mod depth;
pub mod klines;
pub mod market;
pub mod order;
pub mod query;
pub mod request;
pub mod response;
pub mod tickers;
pub mod trade;
pub mod trades;
