//! A verified client core for a crypto-exchange API: canonical query
//! construction and HMAC signing for the REST side, route resolution per
//! market family, stream-topic and connection-URL building, and the tagged
//! event decoding and lifecycle decisions of the websocket receive loop.
//! Network I/O stays outside; every function here is a total, specified
//! computation from plain values to plain values.

pub mod api;
pub mod client;
pub mod config;
pub mod errors;
pub mod futures;
pub(crate) mod jsonval;
pub mod rest_model;
pub mod signer;
pub mod spot;
pub mod util;
