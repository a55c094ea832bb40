//! Error taxonomy shared by the REST and streaming layers.

use vstd::prelude::*;

verus! {

/// Every failure the library reports to a caller.
///
/// - `MissingCredentials`: a signed operation was attempted without a secret
///   key; raised before any network work.
/// - `Network`: a transport-level failure; never retried by the library.
/// - `Api`: the server rejected the request with a `{code, msg}` body; the
///   code is the authoritative discriminant (`-1000` is the server's
///   catch-all "unknown" code).
/// - `Decode`: a response body or stream frame did not match the expected
///   shape; only the payload size is kept, never the payload itself.
/// - `Handshake`: the websocket connect/upgrade failed; the session stays
///   idle.
/// - `Disconnected`: the peer closed the stream or a read failed mid-loop.
/// - `UnsupportedRoute`: a route was requested from a resolver that does not
///   define it.
/// - `UnknownSymbol`: a symbol lookup found no matching entry.
#[derive(Debug, Clone, PartialEq, Eq)]
pub enum BinanceError {
    MissingCredentials,
    Network(String),
    Api { code: i64, msg: String },
    Decode { payload_len: usize },
    Handshake(String),
    Disconnected,
    UnsupportedRoute,
    UnknownSymbol(String),
}

impl BinanceError {
    /// A short human-readable description of the error kind.
    pub fn message(&self) -> (r: String)
        ensures
            self is MissingCredentials ==> r@ == "signed request without a secret key"@,
            self is Disconnected ==> r@ == "websocket disconnected"@,
            self is UnsupportedRoute ==> r@ == "route not defined for this market type"@,
    {
        match self {
            BinanceError::MissingCredentials => String::from_str("signed request without a secret key"),
            BinanceError::Network(m) => {
                let mut s = String::from_str("network error: ");
                s.append(m.as_str());
                s
            },
            BinanceError::Api { code: _, msg } => {
                let mut s = String::from_str("api error: ");
                s.append(msg.as_str());
                s
            },
            BinanceError::Decode { payload_len: _ } => String::from_str("response did not match the expected shape"),
            BinanceError::Handshake(m) => {
                let mut s = String::from_str("handshake error: ");
                s.append(m.as_str());
                s
            },
            BinanceError::Disconnected => String::from_str("websocket disconnected"),
            BinanceError::UnsupportedRoute => String::from_str("route not defined for this market type"),
            BinanceError::UnknownSymbol(m) => {
                let mut s = String::from_str("unknown symbol: ");
                s.append(m.as_str());
                s
            },
        }
    }
}

} // verus!
