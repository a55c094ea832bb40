//! The user-data stream's listen-key lifecycle: obtain, keep alive, and
//! invalidate.

use vstd::prelude::*;
use crate::client::{spec_plain_url, Client, HttpMethod, RequestPlan};
use crate::config::Config;
use crate::errors::BinanceError;
use crate::futures::futures_type::{spec_rest_endpoint, FuturesType};
use crate::futures::router::{resolve, spec_route_path, FuturesRoute, MarketType};

verus! {

/// The query naming a listen key.
pub open spec fn spec_listen_key_query(listen_key: Seq<char>) -> Seq<char> {
    "listenKey="@ + listen_key
}

/// The user-data stream client of one market family.
#[derive(Clone)]
pub struct UserStream {
    pub client: Client,
    pub recv_window: u64,
    pub market: MarketType,
}

impl UserStream {
    /// A user-stream client of the family `T`: the family's own REST host
    /// unless the configuration overrides it.
    pub fn new_with_config<T: FuturesType>(
        api_key: Option<String>,
        secret_key: Option<String>,
        config: &Config,
    ) -> (r: UserStream)
        ensures
            r.client.api_key == api_key,
            r.client.secret_key == secret_key,
            config.futures_rest_api_endpoint@.len() == 0 ==> r.client.host@ == spec_rest_endpoint(
                T::spec_market(),
            ),
            config.futures_rest_api_endpoint@.len() > 0 ==> r.client.host
                == config.futures_rest_api_endpoint,
            r.recv_window == config.recv_window,
            r.market == T::spec_market(),
    {
        let host = if config.futures_rest_api_endpoint.as_str().is_empty() {
            T::endpoint()
        } else {
            config.futures_rest_api_endpoint.clone()
        };
        UserStream {
            client: Client::new(api_key, secret_key, host, config.timeout),
            recv_window: config.recv_window,
            market: T::market_type(),
        }
    }

    /// The concrete path of a route under this client's market family.
    pub fn get_api(&self, f: FuturesRoute) -> (r: String)
        ensures
            r@ == spec_route_path(self.market, f),
    {
        resolve(self.market, f)
    }

    /// Plans obtaining a fresh listen key.
    pub fn start(&self) -> (r: RequestPlan)
        ensures
            r.method == HttpMethod::Post,
            r.api_key_header == self.client.api_key,
            r.url@ == spec_plain_url(
                self.client.host@,
                spec_route_path(self.market, FuturesRoute::UserDataStream),
                None,
            ),
    {
        let path = self.get_api(FuturesRoute::UserDataStream);
        self.client.plan(HttpMethod::Post, path.as_str(), None)
    }

    /// Plans keeping a listen key alive; the key goes stale after an hour
    /// without one of these.
    pub fn keep_alive(&self, listen_key: &str) -> (r: RequestPlan)
        ensures
            r.method == HttpMethod::Put,
            r.api_key_header == self.client.api_key,
            r.url@ == self.client.host@ + spec_route_path(
                self.market,
                FuturesRoute::UserDataStream,
            ) + seq!['?'] + spec_listen_key_query(listen_key@),
    {
        let path = self.get_api(FuturesRoute::UserDataStream);
        let mut query = String::from_str("listenKey=");
        query.append(listen_key);
        proof {
            reveal_strlit("listenKey=");
        }
        self.client.plan(HttpMethod::Put, path.as_str(), Some(query.as_str()))
    }

    /// Plans invalidating a listen key.
    pub fn close(&self, listen_key: &str) -> (r: RequestPlan)
        ensures
            r.method == HttpMethod::Delete,
            r.api_key_header == self.client.api_key,
            r.url@ == self.client.host@ + spec_route_path(
                self.market,
                FuturesRoute::UserDataStream,
            ) + seq!['?'] + spec_listen_key_query(listen_key@),
    {
        let path = self.get_api(FuturesRoute::UserDataStream);
        let mut query = String::from_str("listenKey=");
        query.append(listen_key);
        proof {
            reveal_strlit("listenKey=");
        }
        self.client.plan(HttpMethod::Delete, path.as_str(), Some(query.as_str()))
    }
}

} // verus!
