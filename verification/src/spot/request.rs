//! Plain request shapes for the account's order queries.

use vstd::prelude::*;
use crate::util::{pair_views, push_opt_param, push_opt_u64, push_param, spec_u64_string};

verus! {

/// A single-order lookup: by exchange id or by the client's own id, with an
/// optional per-request window.
pub struct GetOrderRequest {
    pub symbol: String,
    pub order_id: Option<u64>,
    pub orig_client_order_id: Option<String>,
    pub recv_window: Option<u64>,
}

impl GetOrderRequest {
    /// The caller entries this lookup sends, in the endpoint's order. The
    /// window is not among them: it is signed separately.
    pub open spec fn spec_params(&self) -> Seq<(Seq<char>, Seq<char>)> {
        seq![("symbol"@, self.symbol@)] + (if self.order_id is Some {
            seq![("orderId"@, spec_u64_string(self.order_id->Some_0 as nat))]
        } else {
            Seq::empty()
        }) + (if self.orig_client_order_id is Some {
            seq![("origClientOrderId"@, self.orig_client_order_id->Some_0@)]
        } else {
            Seq::empty()
        })
    }

    /// The caller entries, as an owned list.
    pub fn params(&self) -> (r: Vec<(String, String)>)
        ensures
            pair_views(r@) == self.spec_params(),
    {
        let mut entries: Vec<(String, String)> = Vec::new();
        push_param(&mut entries, "symbol", self.symbol.clone());
        proof {
            assert(pair_views(entries@) =~= seq![("symbol"@, self.symbol@)]);
        }
        push_opt_u64(&mut entries, "orderId", self.order_id);
        push_opt_param(&mut entries, "origClientOrderId", &self.orig_client_order_id);
        entries
    }
}

/// An order-history query with an optional id, time range, page size and
/// per-request window.
pub struct OrdersQuery {
    pub symbol: String,
    pub order_id: Option<u64>,
    pub start_time: Option<u64>,
    pub end_time: Option<u64>,
    pub limit: Option<u32>,
    pub recv_window: Option<u64>,
}

impl OrdersQuery {
    /// The caller entries this query sends, in the endpoint's order. The
    /// window is not among them: it is signed separately.
    pub open spec fn spec_params(&self) -> Seq<(Seq<char>, Seq<char>)> {
        seq![("symbol"@, self.symbol@)] + (if self.order_id is Some {
            seq![("orderId"@, spec_u64_string(self.order_id->Some_0 as nat))]
        } else {
            Seq::empty()
        }) + (if self.start_time is Some {
            seq![("startTime"@, spec_u64_string(self.start_time->Some_0 as nat))]
        } else {
            Seq::empty()
        }) + (if self.end_time is Some {
            seq![("endTime"@, spec_u64_string(self.end_time->Some_0 as nat))]
        } else {
            Seq::empty()
        }) + (if self.limit is Some {
            seq![("limit"@, spec_u64_string(self.limit->Some_0 as nat))]
        } else {
            Seq::empty()
        })
    }

    /// The caller entries, as an owned list.
    pub fn params(&self) -> (r: Vec<(String, String)>)
        ensures
            pair_views(r@) == self.spec_params(),
    {
        let mut entries: Vec<(String, String)> = Vec::new();
        push_param(&mut entries, "symbol", self.symbol.clone());
        proof {
            assert(pair_views(entries@) =~= seq![("symbol"@, self.symbol@)]);
        }
        push_opt_u64(&mut entries, "orderId", self.order_id);
        push_opt_u64(&mut entries, "startTime", self.start_time);
        push_opt_u64(&mut entries, "endTime", self.end_time);
        let limit64: Option<u64> = match self.limit {
            Some(l) => Some(l as u64),
            None => None,
        };
        push_opt_u64(&mut entries, "limit", limit64);
        entries
    }
}

} // verus!
