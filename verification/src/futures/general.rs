//! Unsigned futures endpoints: connectivity, server time, exchange
//! information, and the symbol lookup over it.

use vstd::prelude::*;
use crate::client::{spec_plain_url, Client, HttpMethod, RequestPlan};
use crate::config::Config;
use crate::errors::BinanceError;
use crate::futures::futures_type::{spec_rest_endpoint, FuturesType};
use crate::futures::router::{resolve, spec_route_path, FuturesRoute, MarketType};
use crate::jsonval::{
    get_member_string, get_member_u64, json_as_array, json_elems_of, json_get, json_member_of,
    spec_member_str, spec_member_u64,
};
use crate::util::{to_uppercase, upper_of};

verus! {

/// One tradeable symbol of the exchange information, reduced to the fields
/// this client reads.
#[derive(Debug, Clone, PartialEq, Eq)]
pub struct Symbol {
    pub symbol: String,
    pub status: String,
    pub base_asset: String,
    pub quote_asset: String,
}

/// The exchange information: the server's time and its symbols.
#[derive(Debug, Clone, PartialEq, Eq)]
pub struct ExchangeInformation {
    pub server_time: u64,
    pub symbols: Vec<Symbol>,
}

/// Whether a decoded JSON object carries every field of a symbol entry,
/// each as a string.
pub open spec fn spec_symbol_ok(v: serde_json::Value) -> bool {
    &&& spec_member_str(v, "symbol"@) is Some
    &&& spec_member_str(v, "status"@) is Some
    &&& spec_member_str(v, "baseAsset"@) is Some
    &&& spec_member_str(v, "quoteAsset"@) is Some
}

/// How a decoded symbol entry relates to its JSON object: each field
/// carries the string under its key.
pub open spec fn spec_symbol_fields(s: Symbol, v: serde_json::Value) -> bool {
    &&& s.symbol@ == spec_member_str(v, "symbol"@)->Some_0
    &&& s.status@ == spec_member_str(v, "status"@)->Some_0
    &&& s.base_asset@ == spec_member_str(v, "baseAsset"@)->Some_0
    &&& s.quote_asset@ == spec_member_str(v, "quoteAsset"@)->Some_0
}

/// Reads one symbol entry out of a decoded JSON object: it decodes exactly
/// when every field is present as a string.
pub fn symbol_from_value(v: &serde_json::Value) -> (r: Option<Symbol>)
    ensures
        (r is Some) <==> spec_symbol_ok(*v),
        r is Some ==> spec_symbol_fields(r->Some_0, *v),
{
    let symbol = match get_member_string(v, "symbol") {
        Some(s) => s,
        None => return None,
    };
    let status = match get_member_string(v, "status") {
        Some(s) => s,
        None => return None,
    };
    let base_asset = match get_member_string(v, "baseAsset") {
        Some(s) => s,
        None => return None,
    };
    let quote_asset = match get_member_string(v, "quoteAsset") {
        Some(s) => s,
        None => return None,
    };
    Some(Symbol { symbol, status, base_asset, quote_asset })
}

/// The symbol rows of an exchange-information object: present exactly when
/// its `symbols` member is an array.
pub open spec fn spec_symbol_rows(v: serde_json::Value) -> Option<Seq<serde_json::Value>> {
    match json_member_of(v, "symbols"@) {
        Some(f) => json_elems_of(f),
        None => None,
    }
}

/// Whether a decoded JSON object is a complete exchange information: a
/// numeric server time and a symbol array whose every entry is complete.
pub open spec fn spec_exchange_information_ok(v: serde_json::Value) -> bool {
    &&& spec_member_u64(v, "serverTime"@) is Some
    &&& spec_symbol_rows(v) is Some
    &&& forall|i: int|
        0 <= i < spec_symbol_rows(v)->Some_0.len() ==> spec_symbol_ok(
            #[trigger] spec_symbol_rows(v)->Some_0[i],
        )
}

/// Reads the exchange information out of a decoded JSON object: it decodes
/// exactly when the server time and the full symbol list are complete — a
/// single bad symbol entry fails the decode rather than being dropped —
/// and each decoded symbol carries its row's fields, in order.
pub fn exchange_information_from_value(v: &serde_json::Value) -> (r: Option<ExchangeInformation>)
    ensures
        (r is Some) <==> spec_exchange_information_ok(*v),
        r is Some ==> {
            let info = r->Some_0;
            &&& info.server_time == spec_member_u64(*v, "serverTime"@)->Some_0
            &&& info.symbols@.len() == spec_symbol_rows(*v)->Some_0.len()
            &&& forall|i: int|
                0 <= i < info.symbols@.len() ==> spec_symbol_fields(
                    #[trigger] info.symbols@[i],
                    spec_symbol_rows(*v)->Some_0[i],
                )
        },
{
    let server_time = match get_member_u64(v, "serverTime") {
        Some(n) => n,
        None => return None,
    };
    let rows = match json_get(v, "symbols") {
        Some(f) => match json_as_array(f) {
            Some(a) => a,
            None => return None,
        },
        None => return None,
    };
    proof {
        assert(rows@ == spec_symbol_rows(*v)->Some_0);
    }
    let mut symbols: Vec<Symbol> = Vec::new();
    let mut i: usize = 0;
    while i < rows.len()
        invariant
            i <= rows@.len(),
            rows@ == spec_symbol_rows(*v)->Some_0,
            symbols@.len() == i,
            forall|j: int| 0 <= j < i ==> spec_symbol_ok(#[trigger] rows@[j]),
            forall|j: int| 0 <= j < i ==> spec_symbol_fields(#[trigger] symbols@[j], rows@[j]),
        decreases rows@.len() - i,
    {
        match symbol_from_value(&rows[i]) {
            Some(s) => symbols.push(s),
            None => return None,
        }
        i = i + 1;
    }
    Some(ExchangeInformation { server_time, symbols })
}

/// Unsigned general endpoints of one market family.
pub struct FuturesGeneral {
    pub client: Client,
    pub market: MarketType,
}

impl FuturesGeneral {
    /// A general client of the family `T`: the family's own REST host unless
    /// the configuration overrides it.
    pub fn new_with_config<T: FuturesType>(
        api_key: Option<String>,
        secret_key: Option<String>,
        config: &Config,
    ) -> (r: FuturesGeneral)
        ensures
            r.client.api_key == api_key,
            r.client.secret_key == secret_key,
            config.futures_rest_api_endpoint@.len() == 0 ==> r.client.host@ == spec_rest_endpoint(
                T::spec_market(),
            ),
            config.futures_rest_api_endpoint@.len() > 0 ==> r.client.host
                == config.futures_rest_api_endpoint,
            r.market == T::spec_market(),
    {
        let host = if config.futures_rest_api_endpoint.as_str().is_empty() {
            T::endpoint()
        } else {
            config.futures_rest_api_endpoint.clone()
        };
        FuturesGeneral {
            client: Client::new(api_key, secret_key, host, config.timeout),
            market: T::market_type(),
        }
    }

    /// The concrete path of a route under this client's market family.
    pub fn get_api(&self, f: FuturesRoute) -> (r: String)
        ensures
            r@ == spec_route_path(self.market, f),
    {
        resolve(self.market, f)
    }

    /// Plans the connectivity check.
    pub fn ping(&self) -> (r: RequestPlan)
        ensures
            r.method == HttpMethod::Get,
            r.api_key_header == self.client.api_key,
            r.url@ == spec_plain_url(
                self.client.host@,
                spec_route_path(self.market, FuturesRoute::Ping),
                None,
            ),
    {
        let path = self.get_api(FuturesRoute::Ping);
        self.client.plan(HttpMethod::Get, path.as_str(), None)
    }

    /// Plans the server-time query.
    pub fn get_server_time(&self) -> (r: RequestPlan)
        ensures
            r.method == HttpMethod::Get,
            r.api_key_header == self.client.api_key,
            r.url@ == spec_plain_url(
                self.client.host@,
                spec_route_path(self.market, FuturesRoute::Time),
                None,
            ),
    {
        let path = self.get_api(FuturesRoute::Time);
        self.client.plan(HttpMethod::Get, path.as_str(), None)
    }

    /// Plans the exchange-information query.
    pub fn exchange_info(&self) -> (r: RequestPlan)
        ensures
            r.method == HttpMethod::Get,
            r.api_key_header == self.client.api_key,
            r.url@ == spec_plain_url(
                self.client.host@,
                spec_route_path(self.market, FuturesRoute::ExchangeInfo),
                None,
            ),
    {
        let path = self.get_api(FuturesRoute::ExchangeInfo);
        self.client.plan(HttpMethod::Get, path.as_str(), None)
    }

    /// Finds a symbol in the exchange information, matching the upper-cased
    /// request against the listed names: the first match is returned, and a
    /// symbol that is not listed is an `UnknownSymbol` error carrying the
    /// request as given.
    pub fn get_symbol_info(&self, info: &ExchangeInformation, symbol: &str) -> (r: Result<
        Symbol,
        BinanceError,
    >)
        ensures
            (exists|i: int|
                0 <= i < info.symbols@.len() && #[trigger] info.symbols@[i].symbol@ == upper_of(
                    symbol@,
                )) <==> r is Ok,
            r is Ok ==> exists|i: int|
                {
                    &&& 0 <= i < info.symbols@.len()
                    &&& #[trigger] info.symbols@[i] == r->Ok_0
                    &&& info.symbols@[i].symbol@ == upper_of(symbol@)
                    &&& forall|j: int|
                        0 <= j < i ==> #[trigger] info.symbols@[j].symbol@ != upper_of(symbol@)
                },
            r is Err ==> (r->Err_0 matches BinanceError::UnknownSymbol(s) && s@ == symbol@),
    {
        let upper = to_uppercase(symbol);
        let mut i: usize = 0;
        while i < info.symbols.len()
            invariant
                i <= info.symbols@.len(),
                upper@ == upper_of(symbol@),
                forall|j: int|
                    0 <= j < i ==> #[trigger] info.symbols@[j].symbol@ != upper_of(symbol@),
            decreases info.symbols@.len() - i,
        {
            if crate::util::str_eq(info.symbols[i].symbol.as_str(), upper.as_str()) {
                let hit = &info.symbols[i];
                let found = Symbol {
                    symbol: hit.symbol.clone(),
                    status: hit.status.clone(),
                    base_asset: hit.base_asset.clone(),
                    quote_asset: hit.quote_asset.clone(),
                };
                proof {
                    assert(info.symbols@[i as int] == found);
                }
                return Ok(found);
            }
            i = i + 1;
        }
        Err(BinanceError::UnknownSymbol(symbol.to_owned()))
    }
}

} // verus!
