//! The order-book depth query and its response shape.

use vstd::prelude::*;
use crate::util::{
    build_request, pair_views, push_param, spec_query, spec_u64_string, u64_string,
};

verus! {

/// Query for an order-book snapshot of a symbol.
pub struct DepthBuilder {
    pub symbol: String,
    pub limit: Option<u16>,
}

impl DepthBuilder {
    /// A query for the given symbol, with no depth limit set.
    pub fn new(symbol: String) -> (r: DepthBuilder)
        ensures
            r.symbol == symbol,
            r.limit is None,
    {
        DepthBuilder { symbol, limit: None }
    }

    /// Sets the number of levels to return (the endpoint accepts 5, 10, 20,
    /// 50, 100, 500, 1000 or 5000; the builder only formats).
    pub fn limit(self, limit: u16) -> (r: DepthBuilder)
        ensures
            r.symbol == self.symbol,
            r.limit == Some(limit),
    {
        DepthBuilder { limit: Some(limit), ..self }
    }

    /// The entries this query sends: the symbol, then the limit if set.
    pub open spec fn spec_params(&self) -> Seq<(Seq<char>, Seq<char>)> {
        seq![("symbol"@, self.symbol@)] + (match self.limit {
            Some(l) => seq![("limit"@, spec_u64_string(l as nat))],
            None => Seq::empty(),
        })
    }

    /// The query string of this request, entries in their canonical order.
    pub fn get_params(&self) -> (r: String)
        ensures
            r@ == spec_query(self.spec_params()),
    {
        let mut entries: Vec<(String, String)> = Vec::new();
        push_param(&mut entries, "symbol", self.symbol.clone());
        match self.limit {
            Some(l) => push_param(&mut entries, "limit", u64_string(l as u64)),
            None => {},
        }
        proof {
            assert(pair_views(entries@) =~= self.spec_params());
            reveal_strlit("symbol");
            reveal_strlit("limit");
            crate::util::lemma_keep_named_identity(self.spec_params());
        }
        build_request(&entries)
    }
}

/// One bid level: price and quantity in the wire's decimal-string form.
#[derive(Debug, Clone, PartialEq, Eq)]
pub struct Bids {
    pub price: String,
    pub qty: String,
}

/// One ask level: price and quantity in the wire's decimal-string form.
#[derive(Debug, Clone, PartialEq, Eq)]
pub struct Asks {
    pub price: String,
    pub qty: String,
}

/// An order-book snapshot.
#[derive(Debug, Clone, PartialEq, Eq)]
pub struct OrderBook {
    pub last_update_id: u64,
    pub bids: Vec<Bids>,
    pub asks: Vec<Asks>,
}

} // verus!
