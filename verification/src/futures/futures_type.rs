//! The two market-family marker types, each tied to its hosts and route
//! table through one shared trait.

use vstd::prelude::*;
use crate::futures::router::{resolve, spec_route_path, FuturesRoute, MarketType};

verus! {

/// The REST host of a market family.
pub open spec fn spec_rest_endpoint(market: MarketType) -> Seq<char> {
    match market {
        MarketType::Linear => "https://fapi.binance.com"@,
        MarketType::Inverse => "https://dapi.binance.com"@,
    }
}

/// The websocket host of a market family.
pub open spec fn spec_ws_endpoint(market: MarketType) -> Seq<char> {
    match market {
        MarketType::Linear => "wss://fstream.binance.com"@,
        MarketType::Inverse => "wss://dstream.binance.com"@,
    }
}

/// A market family: its tag, its hosts, and its view of the shared route
/// table.
pub trait FuturesType {
    /// The family tag this type stands for.
    spec fn spec_market() -> MarketType;

    /// The family tag, as a value.
    fn market_type() -> (m: MarketType)
        ensures
            m == Self::spec_market(),
    ;

    /// Resolves a shared route to this family's path.
    fn route(f: FuturesRoute) -> (r: String)
        ensures
            r@ == spec_route_path(Self::spec_market(), f),
    ;

    /// This family's REST host.
    fn endpoint() -> (r: String)
        ensures
            r@ == spec_rest_endpoint(Self::spec_market()),
    ;

    /// This family's websocket host.
    fn ws_endpoint() -> (r: String)
        ensures
            r@ == spec_ws_endpoint(Self::spec_market()),
    ;
}

/// Marker for the linear-contract family.
pub struct FuturesLinearType;

/// Marker for the inverse-contract family.
pub struct FuturesInverseType;

impl FuturesType for FuturesLinearType {
    open spec fn spec_market() -> MarketType {
        MarketType::Linear
    }

    fn market_type() -> (m: MarketType) {
        MarketType::Linear
    }

    fn route(f: FuturesRoute) -> (r: String) {
        resolve(MarketType::Linear, f)
    }

    fn endpoint() -> (r: String) {
        String::from_str("https://fapi.binance.com")
    }

    fn ws_endpoint() -> (r: String) {
        String::from_str("wss://fstream.binance.com")
    }
}

impl FuturesType for FuturesInverseType {
    open spec fn spec_market() -> MarketType {
        MarketType::Inverse
    }

    fn market_type() -> (m: MarketType) {
        MarketType::Inverse
    }

    fn route(f: FuturesRoute) -> (r: String) {
        resolve(MarketType::Inverse, f)
    }

    fn endpoint() -> (r: String) {
        String::from_str("https://dapi.binance.com")
    }

    fn ws_endpoint() -> (r: String) {
        String::from_str("wss://dstream.binance.com")
    }
}

} // verus!
