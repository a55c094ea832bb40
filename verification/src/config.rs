//! Endpoint and window configuration shared by the REST and streaming
//! clients.

use vstd::prelude::*;

verus! {

/// Hosts and the default receive window. An empty futures REST endpoint
/// means "use the market family's own host".
#[derive(Debug, Clone)]
pub struct Config {
    pub rest_api_endpoint: String,
    pub ws_endpoint: String,
    pub futures_rest_api_endpoint: String,
    pub futures_ws_endpoint: String,
    pub recv_window: u64,
    pub timeout: u64,
}

impl Config {
    /// The production hosts.
    pub fn new() -> (r: Config)
        ensures
            r.rest_api_endpoint@ == "https://api.binance.com"@,
            r.ws_endpoint@ == "wss://stream.binance.com:9443"@,
            r.futures_rest_api_endpoint@ == ""@,
            r.futures_ws_endpoint@ == "wss://fstream.binance.com"@,
            r.recv_window == 5000,
            r.timeout == 0,
    {
        Config {
            rest_api_endpoint: String::from_str("https://api.binance.com"),
            ws_endpoint: String::from_str("wss://stream.binance.com:9443"),
            futures_rest_api_endpoint: String::from_str(""),
            futures_ws_endpoint: String::from_str("wss://fstream.binance.com"),
            recv_window: 5000,
            timeout: 0,
        }
    }

    /// The public test-network hosts.
    pub fn testnet() -> (r: Config)
        ensures
            r.rest_api_endpoint@ == "https://testnet.binance.vision"@,
            r.ws_endpoint@ == "wss://testnet.binance.vision"@,
            r.futures_rest_api_endpoint@ == "https://testnet.binancefuture.com"@,
            r.futures_ws_endpoint@ == "wss://stream.binancefuture.com"@,
            r.recv_window == 5000,
            r.timeout == 0,
    {
        Config {
            rest_api_endpoint: String::from_str("https://testnet.binance.vision"),
            ws_endpoint: String::from_str("wss://testnet.binance.vision"),
            futures_rest_api_endpoint: String::from_str("https://testnet.binancefuture.com"),
            futures_ws_endpoint: String::from_str("wss://stream.binancefuture.com"),
            recv_window: 5000,
            timeout: 0,
        }
    }

    /// Replaces the receive window.
    pub fn set_recv_window(self, recv_window: u64) -> (r: Config)
        ensures
            r.recv_window == recv_window,
            r.rest_api_endpoint == self.rest_api_endpoint,
            r.ws_endpoint == self.ws_endpoint,
            r.futures_rest_api_endpoint == self.futures_rest_api_endpoint,
            r.futures_ws_endpoint == self.futures_ws_endpoint,
            r.timeout == self.timeout,
    {
        Config { recv_window, ..self }
    }
}

impl Default for Config {
    /// The production hosts, as `Config::new` builds them.
    fn default() -> (r: Config)
        ensures
            r.rest_api_endpoint@ == "https://api.binance.com"@,
            r.ws_endpoint@ == "wss://stream.binance.com:9443"@,
            r.futures_rest_api_endpoint@ == ""@,
            r.futures_ws_endpoint@ == "wss://fstream.binance.com"@,
            r.recv_window == 5000,
            r.timeout == 0,
    {
        Config::new()
    }
}

} // verus!
