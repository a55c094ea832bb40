//! Recent, historical and aggregated trade queries, and their response
//! shapes.

use vstd::prelude::*;
use crate::util::{
    build_request, pair_views, push_param, spec_query, spec_u64_string, u64_string,
};

verus! {

/// Query for the latest public trades of a symbol.
pub struct TradesBuilder {
    pub symbol: String,
    pub limit: Option<u16>,
}

impl TradesBuilder {
    /// A query for the given symbol, with no limit set.
    pub fn new(symbol: String) -> (r: TradesBuilder)
        ensures
            r.symbol == symbol,
            r.limit is None,
    {
        TradesBuilder { symbol, limit: None }
    }

    /// Sets the maximum number of trades to return.
    pub fn limit(self, limit: u16) -> (r: TradesBuilder)
        ensures
            r.symbol == self.symbol,
            r.limit == Some(limit),
    {
        TradesBuilder { limit: Some(limit), ..self }
    }

    /// The entries this query sends: the symbol, then the limit if set.
    pub open spec fn spec_params(&self) -> Seq<(Seq<char>, Seq<char>)> {
        seq![("symbol"@, self.symbol@)] + (match self.limit {
            Some(l) => seq![("limit"@, spec_u64_string(l as nat))],
            None => Seq::empty(),
        })
    }

    /// The query string of this request, entries in their canonical order.
    pub fn get_params(&self) -> (r: String)
        ensures
            r@ == spec_query(self.spec_params()),
    {
        let mut entries: Vec<(String, String)> = Vec::new();
        push_param(&mut entries, "symbol", self.symbol.clone());
        match self.limit {
            Some(l) => push_param(&mut entries, "limit", u64_string(l as u64)),
            None => {},
        }
        proof {
            assert(pair_views(entries@) =~= self.spec_params());
            reveal_strlit("symbol");
            reveal_strlit("limit");
            crate::util::lemma_keep_named_identity(self.spec_params());
        }
        build_request(&entries)
    }
}

/// Query for older public trades of a symbol, paged by trade id.
pub struct HistoricalTradesBuilder {
    pub symbol: String,
    pub limit: Option<u16>,
    pub from_id: Option<u64>,
}

impl HistoricalTradesBuilder {
    /// A query for the given symbol, with no paging set.
    pub fn new(symbol: String) -> (r: HistoricalTradesBuilder)
        ensures
            r.symbol == symbol,
            r.limit is None,
            r.from_id is None,
    {
        HistoricalTradesBuilder { symbol, limit: None, from_id: None }
    }

    /// Sets the maximum number of trades to return.
    pub fn limit(self, limit: u16) -> (r: HistoricalTradesBuilder)
        ensures
            r.symbol == self.symbol,
            r.from_id == self.from_id,
            r.limit == Some(limit),
    {
        HistoricalTradesBuilder { limit: Some(limit), ..self }
    }

    /// Sets the trade id to fetch from.
    pub fn from_id(self, from_id: u64) -> (r: HistoricalTradesBuilder)
        ensures
            r.symbol == self.symbol,
            r.limit == self.limit,
            r.from_id == Some(from_id),
    {
        HistoricalTradesBuilder { from_id: Some(from_id), ..self }
    }

    /// The entries this query sends: the symbol, then limit and starting id
    /// when set.
    pub open spec fn spec_params(&self) -> Seq<(Seq<char>, Seq<char>)> {
        seq![("symbol"@, self.symbol@)] + (match self.limit {
            Some(l) => seq![("limit"@, spec_u64_string(l as nat))],
            None => Seq::empty(),
        }) + (match self.from_id {
            Some(f) => seq![("fromId"@, spec_u64_string(f as nat))],
            None => Seq::empty(),
        })
    }

    /// The query string of this request, entries in their canonical order.
    pub fn get_params(&self) -> (r: String)
        ensures
            r@ == spec_query(self.spec_params()),
    {
        let mut entries: Vec<(String, String)> = Vec::new();
        push_param(&mut entries, "symbol", self.symbol.clone());
        match self.limit {
            Some(l) => push_param(&mut entries, "limit", u64_string(l as u64)),
            None => {},
        }
        match self.from_id {
            Some(f) => push_param(&mut entries, "fromId", u64_string(f)),
            None => {},
        }
        proof {
            assert(pair_views(entries@) =~= self.spec_params());
            reveal_strlit("symbol");
            reveal_strlit("limit");
            reveal_strlit("fromId");
            crate::util::lemma_keep_named_identity(self.spec_params());
        }
        build_request(&entries)
    }
}

/// Query for aggregated public trades of a symbol, paged by id or by time.
pub struct AggTradesBuilder {
    pub symbol: String,
    pub from_id: Option<u64>,
    pub start_time: Option<u64>,
    pub end_time: Option<u64>,
    pub limit: Option<u16>,
}

impl AggTradesBuilder {
    /// A query for the given symbol, with no paging set.
    pub fn new(symbol: String) -> (r: AggTradesBuilder)
        ensures
            r.symbol == symbol,
            r.from_id is None,
            r.start_time is None,
            r.end_time is None,
            r.limit is None,
    {
        AggTradesBuilder { symbol, from_id: None, start_time: None, end_time: None, limit: None }
    }

    /// Sets the aggregate trade id to fetch from.
    pub fn from_id(self, from_id: u64) -> (r: AggTradesBuilder)
        ensures
            r == (AggTradesBuilder { from_id: Some(from_id), ..self }),
    {
        AggTradesBuilder { from_id: Some(from_id), ..self }
    }

    /// Sets the inclusive start of the time range, in milliseconds.
    pub fn start_time(self, start_time: u64) -> (r: AggTradesBuilder)
        ensures
            r == (AggTradesBuilder { start_time: Some(start_time), ..self }),
    {
        AggTradesBuilder { start_time: Some(start_time), ..self }
    }

    /// Sets the inclusive end of the time range, in milliseconds.
    pub fn end_time(self, end_time: u64) -> (r: AggTradesBuilder)
        ensures
            r == (AggTradesBuilder { end_time: Some(end_time), ..self }),
    {
        AggTradesBuilder { end_time: Some(end_time), ..self }
    }

    /// Sets the maximum number of trades to return.
    pub fn limit(self, limit: u16) -> (r: AggTradesBuilder)
        ensures
            r == (AggTradesBuilder { limit: Some(limit), ..self }),
    {
        AggTradesBuilder { limit: Some(limit), ..self }
    }

    /// The entries this query sends: the symbol, then each paging bound that
    /// is set, in the endpoint's order.
    pub open spec fn spec_params(&self) -> Seq<(Seq<char>, Seq<char>)> {
        seq![("symbol"@, self.symbol@)] + (match self.from_id {
            Some(f) => seq![("fromId"@, spec_u64_string(f as nat))],
            None => Seq::empty(),
        }) + (match self.start_time {
            Some(t) => seq![("startTime"@, spec_u64_string(t as nat))],
            None => Seq::empty(),
        }) + (match self.end_time {
            Some(t) => seq![("endTime"@, spec_u64_string(t as nat))],
            None => Seq::empty(),
        }) + (match self.limit {
            Some(l) => seq![("limit"@, spec_u64_string(l as nat))],
            None => Seq::empty(),
        })
    }

    /// The query string of this request, entries in their canonical order.
    pub fn get_params(&self) -> (r: String)
        ensures
            r@ == spec_query(self.spec_params()),
    {
        let mut entries: Vec<(String, String)> = Vec::new();
        push_param(&mut entries, "symbol", self.symbol.clone());
        match self.from_id {
            Some(f) => push_param(&mut entries, "fromId", u64_string(f)),
            None => {},
        }
        match self.start_time {
            Some(t) => push_param(&mut entries, "startTime", u64_string(t)),
            None => {},
        }
        match self.end_time {
            Some(t) => push_param(&mut entries, "endTime", u64_string(t)),
            None => {},
        }
        match self.limit {
            Some(l) => push_param(&mut entries, "limit", u64_string(l as u64)),
            None => {},
        }
        proof {
            assert(pair_views(entries@) =~= self.spec_params());
            reveal_strlit("symbol");
            reveal_strlit("fromId");
            reveal_strlit("startTime");
            reveal_strlit("endTime");
            reveal_strlit("limit");
            crate::util::lemma_keep_named_identity(self.spec_params());
        }
        build_request(&entries)
    }
}

/// One public trade, prices and quantities in the wire's decimal-string
/// form.
#[derive(Debug, Clone, PartialEq, Eq)]
pub struct Trade {
    pub id: u64,
    pub price: String,
    pub qty: String,
    pub time: u64,
    pub is_buyer_maker: bool,
    pub is_best_match: bool,
}

/// One aggregated trade, prices and quantities in the wire's decimal-string
/// form.
#[derive(Debug, Clone, PartialEq, Eq)]
pub struct AggTrade {
    pub time: u64,
    pub agg_id: u64,
    pub first_id: u64,
    pub last_id: u64,
    pub maker: bool,
    pub price: String,
    pub qty: String,
}

} // verus!
