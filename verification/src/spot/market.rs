//! The market-data facade: one method per public market endpoint, each
//! handing back the query builder for it.

use vstd::prelude::*;
use crate::client::Client;
use crate::spot::depth::DepthBuilder;
use crate::spot::klines::KlinesBuilder;
use crate::spot::tickers::{
    BookTickerBuilder, BookTickerMultiBuilder, LastPriceBuilder, LastPriceMultiBuilder,
    Ticker24hBuilder, Ticker24hMultiBuilder,
};
use crate::spot::trades::{AggTradesBuilder, HistoricalTradesBuilder, TradesBuilder};
use crate::util::{build_request, pair_views, push_param, spec_query};

verus! {

/// Market-data endpoints of the spot API.
pub struct Market {
    pub client: Client,
    pub recv_window: u64,
}

impl Market {
    /// The one-entry query string naming a symbol.
    pub fn symbol_request(&self, symbol: &str) -> (r: String)
        ensures
            r@ == spec_query(seq![("symbol"@, symbol@)]),
    {
        let mut entries: Vec<(String, String)> = Vec::new();
        push_param(&mut entries, "symbol", symbol.to_owned());
        proof {
            assert(pair_views(entries@) =~= seq![("symbol"@, symbol@)]);
            reveal_strlit("symbol");
            crate::util::lemma_keep_named_identity(seq![("symbol"@, symbol@)]);
        }
        build_request(&entries)
    }

    /// Order-book snapshot of a symbol.
    pub fn get_depth(&self, symbol: &str) -> (r: DepthBuilder)
        ensures
            r.symbol@ == symbol@,
            r.limit is None,
    {
        DepthBuilder::new(symbol.to_owned())
    }

    /// Latest public trades of a symbol.
    pub fn get_trades(&self, symbol: &str) -> (r: TradesBuilder)
        ensures
            r.symbol@ == symbol@,
            r.limit is None,
    {
        TradesBuilder::new(symbol.to_owned())
    }

    /// Older public trades of a symbol.
    pub fn get_historical_trades(&self, symbol: &str) -> (r: HistoricalTradesBuilder)
        ensures
            r.symbol@ == symbol@,
            r.limit is None,
            r.from_id is None,
    {
        HistoricalTradesBuilder::new(symbol.to_owned())
    }

    /// Aggregated public trades of a symbol.
    pub fn get_agg_trades(&self, symbol: &str) -> (r: AggTradesBuilder)
        ensures
            r.symbol@ == symbol@,
            r.from_id is None,
            r.start_time is None,
            r.end_time is None,
            r.limit is None,
    {
        AggTradesBuilder::new(symbol.to_owned())
    }

    /// Klines of a symbol at an interval.
    pub fn get_klines(&self, symbol: &str, interval: &str) -> (r: KlinesBuilder)
        ensures
            r.symbol@ == symbol@,
            r.interval@ == interval@,
            r.start_time is None,
            r.end_time is None,
            r.limit is None,
    {
        KlinesBuilder::new(symbol.to_owned(), interval.to_owned())
    }

    /// 24-hour ticker of one symbol.
    pub fn get_ticker_24h(&self, symbol: &str) -> (r: Ticker24hBuilder)
        ensures
            r.symbol@ == symbol@,
    {
        Ticker24hBuilder::new(symbol.to_owned())
    }

    /// 24-hour tickers of several symbols.
    pub fn get_ticker_24h_multi(&self) -> (r: Ticker24hMultiBuilder)
        ensures
            r.symbols is None,
    {
        Ticker24hMultiBuilder::new()
    }

    /// Latest price of one symbol.
    pub fn get_last_price(&self, symbol: &str) -> (r: LastPriceBuilder)
        ensures
            r.symbol@ == symbol@,
    {
        LastPriceBuilder::new(symbol.to_owned())
    }

    /// Latest prices of several symbols.
    pub fn get_last_price_multi(&self) -> (r: LastPriceMultiBuilder)
        ensures
            r.symbols is None,
    {
        LastPriceMultiBuilder::new()
    }

    /// Best bid and ask of one symbol.
    pub fn get_book_ticker(&self, symbol: &str) -> (r: BookTickerBuilder)
        ensures
            r.symbol@ == symbol@,
    {
        BookTickerBuilder::new(symbol.to_owned())
    }

    /// Best bids and asks of several symbols.
    pub fn get_book_ticker_multi(&self) -> (r: BookTickerMultiBuilder)
        ensures
            r.symbols is None,
    {
        BookTickerMultiBuilder::new()
    }
}

} // verus!
