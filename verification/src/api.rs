//! One constructor trait shared by every endpoint facade.

use vstd::prelude::*;
use crate::client::Client;
use crate::config::Config;
use crate::spot::account::Account;
use crate::spot::api::Spot;
use crate::spot::market::Market;
use crate::spot::trade::Trade;

verus! {

/// Anything constructible from credentials and a configuration.
pub trait Binance: Sized {
    /// A client for the given credentials against the configured hosts.
    fn new_with_config(
        api_key: Option<String>,
        secret_key: Option<String>,
        config: &Config,
    ) -> Self;

    /// A client for the given credentials against the production hosts.
    fn new(api_key: Option<String>, secret_key: Option<String>) -> Self {
        Self::new_with_config(api_key, secret_key, &Config::new())
    }
}

impl Binance for Account {
    fn new_with_config(
        api_key: Option<String>,
        secret_key: Option<String>,
        config: &Config,
    ) -> Account {
        Account {
            client: Client::new(api_key, secret_key, config.rest_api_endpoint.clone(), config.timeout),
            recv_window: config.recv_window,
        }
    }
}

impl Binance for Market {
    fn new_with_config(
        api_key: Option<String>,
        secret_key: Option<String>,
        config: &Config,
    ) -> Market {
        Market {
            client: Client::new(api_key, secret_key, config.rest_api_endpoint.clone(), config.timeout),
            recv_window: config.recv_window,
        }
    }
}

impl Binance for Trade {
    fn new_with_config(
        api_key: Option<String>,
        secret_key: Option<String>,
        config: &Config,
    ) -> Trade {
        Trade {
            client: Client::new(api_key, secret_key, config.rest_api_endpoint.clone(), config.timeout),
            recv_window: config.recv_window,
        }
    }
}

impl Binance for Spot {
    fn new_with_config(
        api_key: Option<String>,
        secret_key: Option<String>,
        config: &Config,
    ) -> Spot {
        Spot::new_with_config(api_key, secret_key, config)
    }
}

} // verus!
