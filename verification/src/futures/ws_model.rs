//! The typed payload of a trade stream event, and its extraction from a
//! decoded JSON value.

use vstd::prelude::*;
use crate::jsonval::{
    get_member_bool, get_member_string, get_member_u64, spec_member_bool, spec_member_str,
    spec_member_u64,
};

verus! {

/// One executed trade as the stream reports it. Prices and quantities stay
/// in the wire's decimal-string form.
#[derive(Debug, Clone, PartialEq, Eq)]
pub struct TradeEvent {
    pub event_time: u64,
    pub trade_order_time: u64,
    pub symbol: String,
    pub trade_id: u64,
    pub price: String,
    pub qty: String,
    pub order_type: String,
    pub is_buyer_maker: bool,
}

/// Whether a decoded JSON object carries every field of a trade event, each
/// with its expected type.
pub open spec fn spec_trade_event_ok(v: serde_json::Value) -> bool {
    &&& spec_member_u64(v, "E"@) is Some
    &&& spec_member_u64(v, "T"@) is Some
    &&& spec_member_str(v, "s"@) is Some
    &&& spec_member_u64(v, "t"@) is Some
    &&& spec_member_str(v, "p"@) is Some
    &&& spec_member_str(v, "q"@) is Some
    &&& spec_member_str(v, "X"@) is Some
    &&& spec_member_bool(v, "m"@) is Some
}

/// Reads a trade event out of a decoded JSON object: every field is
/// required, each comes from its own key, and a missing or mistyped field
/// yields `None` rather than a defaulted value.
pub fn trade_event_from_value(v: &serde_json::Value) -> (r: Option<TradeEvent>)
    ensures
        (r is Some) <==> spec_trade_event_ok(*v),
        r is Some ==> {
            let t = r->Some_0;
            &&& t.event_time == spec_member_u64(*v, "E"@)->Some_0
            &&& t.trade_order_time == spec_member_u64(*v, "T"@)->Some_0
            &&& t.symbol@ == spec_member_str(*v, "s"@)->Some_0
            &&& t.trade_id == spec_member_u64(*v, "t"@)->Some_0
            &&& t.price@ == spec_member_str(*v, "p"@)->Some_0
            &&& t.qty@ == spec_member_str(*v, "q"@)->Some_0
            &&& t.order_type@ == spec_member_str(*v, "X"@)->Some_0
            &&& t.is_buyer_maker == spec_member_bool(*v, "m"@)->Some_0
        },
{
    let event_time = match get_member_u64(v, "E") {
        Some(n) => n,
        None => return None,
    };
    let trade_order_time = match get_member_u64(v, "T") {
        Some(n) => n,
        None => return None,
    };
    let symbol = match get_member_string(v, "s") {
        Some(s) => s,
        None => return None,
    };
    let trade_id = match get_member_u64(v, "t") {
        Some(n) => n,
        None => return None,
    };
    let price = match get_member_string(v, "p") {
        Some(s) => s,
        None => return None,
    };
    let qty = match get_member_string(v, "q") {
        Some(s) => s,
        None => return None,
    };
    let order_type = match get_member_string(v, "X") {
        Some(s) => s,
        None => return None,
    };
    let is_buyer_maker = match get_member_bool(v, "m") {
        Some(b) => b,
        None => return None,
    };
    Some(TradeEvent {
        event_time,
        trade_order_time,
        symbol,
        trade_id,
        price,
        qty,
        order_type,
        is_buyer_maker,
    })
}

} // verus!
