//! Ticker and price queries, single-symbol and multi-symbol, with their
//! response shapes.

use vstd::prelude::*;
use crate::jsonval::{json_string_array, json_string_array_of};
use crate::util::{build_request, pair_views, push_param, spec_query};

verus! {

/// Query for the 24-hour ticker of one symbol.
pub struct Ticker24hBuilder {
    pub symbol: String,
}

impl Ticker24hBuilder {
    /// A query for the given symbol.
    pub fn new(symbol: String) -> (r: Ticker24hBuilder)
        ensures
            r.symbol == symbol,
    {
        Ticker24hBuilder { symbol }
    }

    /// The query string of this request: the symbol alone.
    pub fn get_params(&self) -> (r: String)
        ensures
            r@ == spec_query(seq![("symbol"@, self.symbol@)]),
    {
        let mut entries: Vec<(String, String)> = Vec::new();
        push_param(&mut entries, "symbol", self.symbol.clone());
        proof {
            assert(pair_views(entries@) =~= seq![("symbol"@, self.symbol@)]);
            reveal_strlit("symbol");
            crate::util::lemma_keep_named_identity(seq![("symbol"@, self.symbol@)]);
        }
        build_request(&entries)
    }
}

/// Query for the 24-hour tickers of several symbols at once.
pub struct Ticker24hMultiBuilder {
    pub symbols: Option<Vec<String>>,
}

impl Ticker24hMultiBuilder {
    /// A query with no symbol list yet.
    pub fn new() -> (r: Ticker24hMultiBuilder)
        ensures
            r.symbols is None,
    {
        Ticker24hMultiBuilder { symbols: None }
    }

    /// Sets the symbols to ask for.
    pub fn symbols(self, symbols: Vec<String>) -> (r: Ticker24hMultiBuilder)
        ensures
            r.symbols == Some(symbols),
    {
        Ticker24hMultiBuilder { symbols: Some(symbols) }
    }

    /// The query string of this request: no symbols means no query at all;
    /// otherwise one `symbols` entry holding the JSON array of the names.
    pub fn get_params(&self) -> (r: Option<String>)
        ensures
            (self.symbols is None) <==> (r is None),
            self.symbols is Some ==> r->Some_0@ == spec_query(
                seq![("symbols"@, json_string_array_of(self.symbols->Some_0.deep_view()))],
            ),
    {
        match &self.symbols {
            Some(v) => {
                let rendered = json_string_array(v);
                let mut entries: Vec<(String, String)> = Vec::new();
                push_param(&mut entries, "symbols", rendered);
                proof {
                    assert(pair_views(entries@) =~= seq![
                        ("symbols"@, json_string_array_of(self.symbols->Some_0.deep_view())),
                    ]);
                    reveal_strlit("symbols");
                    crate::util::lemma_keep_named_identity(
                        seq![("symbols"@, json_string_array_of(self.symbols->Some_0.deep_view()))],
                    );
                }
                Some(build_request(&entries))
            },
            None => None,
        }
    }
}

/// Query for the latest price of one symbol.
pub struct LastPriceBuilder {
    pub symbol: String,
}

impl LastPriceBuilder {
    /// A query for the given symbol.
    pub fn new(symbol: String) -> (r: LastPriceBuilder)
        ensures
            r.symbol == symbol,
    {
        LastPriceBuilder { symbol }
    }

    /// The query string of this request: the symbol alone.
    pub fn get_params(&self) -> (r: String)
        ensures
            r@ == spec_query(seq![("symbol"@, self.symbol@)]),
    {
        let mut entries: Vec<(String, String)> = Vec::new();
        push_param(&mut entries, "symbol", self.symbol.clone());
        proof {
            assert(pair_views(entries@) =~= seq![("symbol"@, self.symbol@)]);
            reveal_strlit("symbol");
            crate::util::lemma_keep_named_identity(seq![("symbol"@, self.symbol@)]);
        }
        build_request(&entries)
    }
}

/// Query for the latest prices of several symbols at once.
pub struct LastPriceMultiBuilder {
    pub symbols: Option<Vec<String>>,
}

impl LastPriceMultiBuilder {
    /// A query with no symbol list yet.
    pub fn new() -> (r: LastPriceMultiBuilder)
        ensures
            r.symbols is None,
    {
        LastPriceMultiBuilder { symbols: None }
    }

    /// Sets the symbols to ask for.
    pub fn symbols(self, symbols: Vec<String>) -> (r: LastPriceMultiBuilder)
        ensures
            r.symbols == Some(symbols),
    {
        LastPriceMultiBuilder { symbols: Some(symbols) }
    }

    /// The query string of this request: no symbols means no query at all;
    /// otherwise one `symbols` entry holding the JSON array of the names.
    pub fn get_params(&self) -> (r: Option<String>)
        ensures
            (self.symbols is None) <==> (r is None),
            self.symbols is Some ==> r->Some_0@ == spec_query(
                seq![("symbols"@, json_string_array_of(self.symbols->Some_0.deep_view()))],
            ),
    {
        match &self.symbols {
            Some(v) => {
                let rendered = json_string_array(v);
                let mut entries: Vec<(String, String)> = Vec::new();
                push_param(&mut entries, "symbols", rendered);
                proof {
                    assert(pair_views(entries@) =~= seq![
                        ("symbols"@, json_string_array_of(self.symbols->Some_0.deep_view())),
                    ]);
                    reveal_strlit("symbols");
                    crate::util::lemma_keep_named_identity(
                        seq![("symbols"@, json_string_array_of(self.symbols->Some_0.deep_view()))],
                    );
                }
                Some(build_request(&entries))
            },
            None => None,
        }
    }
}

/// Query for the best bid and ask of one symbol.
pub struct BookTickerBuilder {
    pub symbol: String,
}

impl BookTickerBuilder {
    /// A query for the given symbol.
    pub fn new(symbol: String) -> (r: BookTickerBuilder)
        ensures
            r.symbol == symbol,
    {
        BookTickerBuilder { symbol }
    }

    /// The query string of this request: the symbol alone.
    pub fn get_params(&self) -> (r: String)
        ensures
            r@ == spec_query(seq![("symbol"@, self.symbol@)]),
    {
        let mut entries: Vec<(String, String)> = Vec::new();
        push_param(&mut entries, "symbol", self.symbol.clone());
        proof {
            assert(pair_views(entries@) =~= seq![("symbol"@, self.symbol@)]);
            reveal_strlit("symbol");
            crate::util::lemma_keep_named_identity(seq![("symbol"@, self.symbol@)]);
        }
        build_request(&entries)
    }
}

/// Query for the best bids and asks of several symbols at once.
pub struct BookTickerMultiBuilder {
    pub symbols: Option<Vec<String>>,
}

impl BookTickerMultiBuilder {
    /// A query with no symbol list yet.
    pub fn new() -> (r: BookTickerMultiBuilder)
        ensures
            r.symbols is None,
    {
        BookTickerMultiBuilder { symbols: None }
    }

    /// Sets the symbols to ask for.
    pub fn symbols(self, symbols: Vec<String>) -> (r: BookTickerMultiBuilder)
        ensures
            r.symbols == Some(symbols),
    {
        BookTickerMultiBuilder { symbols: Some(symbols) }
    }

    /// The query string of this request: no symbols means no query at all;
    /// otherwise one `symbols` entry holding the JSON array of the names.
    pub fn get_params(&self) -> (r: Option<String>)
        ensures
            (self.symbols is None) <==> (r is None),
            self.symbols is Some ==> r->Some_0@ == spec_query(
                seq![("symbols"@, json_string_array_of(self.symbols->Some_0.deep_view()))],
            ),
    {
        match &self.symbols {
            Some(v) => {
                let rendered = json_string_array(v);
                let mut entries: Vec<(String, String)> = Vec::new();
                push_param(&mut entries, "symbols", rendered);
                proof {
                    assert(pair_views(entries@) =~= seq![
                        ("symbols"@, json_string_array_of(self.symbols->Some_0.deep_view())),
                    ]);
                    reveal_strlit("symbols");
                    crate::util::lemma_keep_named_identity(
                        seq![("symbols"@, json_string_array_of(self.symbols->Some_0.deep_view()))],
                    );
                }
                Some(build_request(&entries))
            },
            None => None,
        }
    }
}

/// The 24-hour statistics of one symbol, decimal values in the wire's
/// string form.
#[derive(Debug, Clone, PartialEq, Eq)]
pub struct Ticker {
    pub price_change: String,
    pub price_change_percent: String,
    pub weighted_avg_price: String,
    pub prev_close_price: String,
    pub last_price: String,
    pub bid_price: String,
    pub ask_price: String,
    pub open_price: String,
    pub high_price: String,
    pub low_price: String,
    pub volume: String,
    pub open_time: u64,
    pub close_time: u64,
    pub first_id: u64,
    pub last_id: u64,
    pub count: u64,
}

/// The latest price of one symbol, in the wire's string form.
#[derive(Debug, Clone, PartialEq, Eq)]
pub struct LastPrice {
    pub symbol: String,
    pub price: String,
}

/// The best bid and ask of one symbol, in the wire's string form.
#[derive(Debug, Clone, PartialEq, Eq)]
pub struct BookTicker {
    pub symbol: String,
    pub bid_price: String,
    pub bid_qty: String,
    pub ask_price: String,
    pub ask_qty: String,
}

} // verus!
