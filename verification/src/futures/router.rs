//! Route resolution: one shared set of logical operations, resolved to a
//! concrete path per market family.

use vstd::prelude::*;

verus! {

/// The market family a request is routed to. Linear contracts and inverse
/// contracts share the same operations but live under different hosts and
/// path prefixes.
#[derive(Debug, Clone, Copy, PartialEq, Eq, Structural)]
pub enum MarketType {
    Linear,
    Inverse,
}

/// A logical operation, independent of the concrete URL path.
#[derive(Debug, Clone, Copy, PartialEq, Eq, Structural)]
pub enum FuturesRoute {
    Ping,
    Time,
    ExchangeInfo,
    Order,
    OpenOrders,
    PositionRisk,
    Account,
    Balance,
    ChangeInitialLeverage,
    PositionSide,
    AllOpenOrders,
    UserDataStream,
}

/// The fixed path table: every route of every market family resolves to a
/// concrete path.
pub open spec fn spec_route_path(market: MarketType, route: FuturesRoute) -> Seq<char> {
    match market {
        MarketType::Linear => match route {
            FuturesRoute::Ping => "/fapi/v1/ping"@,
            FuturesRoute::Time => "/fapi/v1/time"@,
            FuturesRoute::ExchangeInfo => "/fapi/v1/exchangeInfo"@,
            FuturesRoute::Order => "/fapi/v1/order"@,
            FuturesRoute::OpenOrders => "/fapi/v1/openOrders"@,
            FuturesRoute::PositionRisk => "/fapi/v2/positionRisk"@,
            FuturesRoute::Account => "/fapi/v2/account"@,
            FuturesRoute::Balance => "/fapi/v2/balance"@,
            FuturesRoute::ChangeInitialLeverage => "/fapi/v1/leverage"@,
            FuturesRoute::PositionSide => "/fapi/v1/positionSide/dual"@,
            FuturesRoute::AllOpenOrders => "/fapi/v1/allOpenOrders"@,
            FuturesRoute::UserDataStream => "/fapi/v1/listenKey"@,
        },
        MarketType::Inverse => match route {
            FuturesRoute::Ping => "/dapi/v1/ping"@,
            FuturesRoute::Time => "/dapi/v1/time"@,
            FuturesRoute::ExchangeInfo => "/dapi/v1/exchangeInfo"@,
            FuturesRoute::Order => "/dapi/v1/order"@,
            FuturesRoute::OpenOrders => "/dapi/v1/openOrders"@,
            FuturesRoute::PositionRisk => "/dapi/v1/positionRisk"@,
            FuturesRoute::Account => "/dapi/v1/account"@,
            FuturesRoute::Balance => "/dapi/v1/balance"@,
            FuturesRoute::ChangeInitialLeverage => "/dapi/v1/leverage"@,
            FuturesRoute::PositionSide => "/dapi/v1/positionSide/dual"@,
            FuturesRoute::AllOpenOrders => "/dapi/v1/allOpenOrders"@,
            FuturesRoute::UserDataStream => "/dapi/v1/listenKey"@,
        },
    }
}

/// Resolves a logical operation to the concrete path of the given market
/// family, exactly as the path table states.
pub fn resolve(market: MarketType, route: FuturesRoute) -> (r: String)
    ensures
        r@ == spec_route_path(market, route),
{
    match market {
        MarketType::Linear => match route {
            FuturesRoute::Ping => String::from_str("/fapi/v1/ping"),
            FuturesRoute::Time => String::from_str("/fapi/v1/time"),
            FuturesRoute::ExchangeInfo => String::from_str("/fapi/v1/exchangeInfo"),
            FuturesRoute::Order => String::from_str("/fapi/v1/order"),
            FuturesRoute::OpenOrders => String::from_str("/fapi/v1/openOrders"),
            FuturesRoute::PositionRisk => String::from_str("/fapi/v2/positionRisk"),
            FuturesRoute::Account => String::from_str("/fapi/v2/account"),
            FuturesRoute::Balance => String::from_str("/fapi/v2/balance"),
            FuturesRoute::ChangeInitialLeverage => String::from_str("/fapi/v1/leverage"),
            FuturesRoute::PositionSide => String::from_str("/fapi/v1/positionSide/dual"),
            FuturesRoute::AllOpenOrders => String::from_str("/fapi/v1/allOpenOrders"),
            FuturesRoute::UserDataStream => String::from_str("/fapi/v1/listenKey"),
        },
        MarketType::Inverse => match route {
            FuturesRoute::Ping => String::from_str("/dapi/v1/ping"),
            FuturesRoute::Time => String::from_str("/dapi/v1/time"),
            FuturesRoute::ExchangeInfo => String::from_str("/dapi/v1/exchangeInfo"),
            FuturesRoute::Order => String::from_str("/dapi/v1/order"),
            FuturesRoute::OpenOrders => String::from_str("/dapi/v1/openOrders"),
            FuturesRoute::PositionRisk => String::from_str("/dapi/v1/positionRisk"),
            FuturesRoute::Account => String::from_str("/dapi/v1/account"),
            FuturesRoute::Balance => String::from_str("/dapi/v1/balance"),
            FuturesRoute::ChangeInitialLeverage => String::from_str("/dapi/v1/leverage"),
            FuturesRoute::PositionSide => String::from_str("/dapi/v1/positionSide/dual"),
            FuturesRoute::AllOpenOrders => String::from_str("/dapi/v1/allOpenOrders"),
            FuturesRoute::UserDataStream => String::from_str("/dapi/v1/listenKey"),
        },
    }
}

/// Law: the two market families accept the same route value yet resolve it to
/// different, market-appropriate paths.
pub proof fn lemma_resolve_distinguishes_markets()
    ensures
        spec_route_path(MarketType::Linear, FuturesRoute::Ping) != spec_route_path(
            MarketType::Inverse,
            FuturesRoute::Ping,
        ),
{
    reveal_strlit("/fapi/v1/ping");
    reveal_strlit("/dapi/v1/ping");
    assert("/fapi/v1/ping"@[1] == 'f');
    assert("/dapi/v1/ping"@[1] == 'd');
}

} // verus!
