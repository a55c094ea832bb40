//! One spot client assembling the account, market and trading facades over
//! a shared credential set.

use vstd::prelude::*;
use crate::client::Client;
use crate::config::Config;
use crate::spot::account::Account;
use crate::spot::market::Market;
use crate::spot::trade::Trade;

verus! {

/// The spot API, one facade per endpoint group. Each facade carries its own
/// clone of the client.
pub struct Spot {
    pub account: Account,
    pub market: Market,
    pub trade: Trade,
}

impl Spot {
    /// A spot client against the configured REST host, every facade sharing
    /// the same credentials and window.
    pub fn new_with_config(
        api_key: Option<String>,
        secret_key: Option<String>,
        config: &Config,
    ) -> (r: Spot)
        ensures
            r.account.client.api_key == api_key,
            r.account.client.secret_key == secret_key,
            r.account.client.host == config.rest_api_endpoint,
            r.account.recv_window == config.recv_window,
            r.market.client.api_key == api_key,
            r.market.client.secret_key == secret_key,
            r.market.client.host == config.rest_api_endpoint,
            r.market.recv_window == config.recv_window,
            r.trade.client.api_key == api_key,
            r.trade.client.secret_key == secret_key,
            r.trade.client.host == config.rest_api_endpoint,
            r.trade.recv_window == config.recv_window,
    {
        let client = Client::new(
            api_key,
            secret_key,
            config.rest_api_endpoint.clone(),
            config.timeout,
        );
        let account_client = Client {
            api_key: clone_opt_string(&client.api_key),
            secret_key: clone_opt_string(&client.secret_key),
            host: client.host.clone(),
            timeout: client.timeout,
        };
        let market_client = Client {
            api_key: clone_opt_string(&client.api_key),
            secret_key: clone_opt_string(&client.secret_key),
            host: client.host.clone(),
            timeout: client.timeout,
        };
        Spot {
            account: Account { client: account_client, recv_window: config.recv_window },
            market: Market { client: market_client, recv_window: config.recv_window },
            trade: Trade { client, recv_window: config.recv_window },
        }
    }
}

/// Copies an optional credential string.
fn clone_opt_string(v: &Option<String>) -> (r: Option<String>)
    ensures
        r == *v,
{
    match v {
        Some(s) => Some(s.clone()),
        None => None,
    }
}

} // verus!
