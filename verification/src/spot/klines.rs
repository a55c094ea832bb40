//! The kline (candlestick) query, its row decoding, and the summary shape.

use vstd::prelude::*;
use crate::jsonval::{json_as_i64, json_as_string, json_i64_of, json_str_of};
use crate::util::{
    build_request, pair_views, push_param, spec_query, spec_u64_string, u64_string,
};

verus! {

/// Query for the klines of a symbol at an interval.
pub struct KlinesBuilder {
    pub symbol: String,
    pub interval: String,
    pub start_time: Option<u64>,
    pub end_time: Option<u64>,
    pub limit: Option<u16>,
}

impl KlinesBuilder {
    /// A query for the given symbol and interval, with no range set.
    pub fn new(symbol: String, interval: String) -> (r: KlinesBuilder)
        ensures
            r.symbol == symbol,
            r.interval == interval,
            r.start_time is None,
            r.end_time is None,
            r.limit is None,
    {
        KlinesBuilder { symbol, interval, start_time: None, end_time: None, limit: None }
    }

    /// Sets the inclusive start of the time range, in milliseconds.
    pub fn start_time(self, start_time: u64) -> (r: KlinesBuilder)
        ensures
            r == (KlinesBuilder { start_time: Some(start_time), ..self }),
    {
        KlinesBuilder { start_time: Some(start_time), ..self }
    }

    /// Sets the inclusive end of the time range, in milliseconds.
    pub fn end_time(self, end_time: u64) -> (r: KlinesBuilder)
        ensures
            r == (KlinesBuilder { end_time: Some(end_time), ..self }),
    {
        KlinesBuilder { end_time: Some(end_time), ..self }
    }

    /// Sets the maximum number of rows to return.
    pub fn limit(self, limit: u16) -> (r: KlinesBuilder)
        ensures
            r == (KlinesBuilder { limit: Some(limit), ..self }),
    {
        KlinesBuilder { limit: Some(limit), ..self }
    }

    /// The entries this query sends: symbol and interval, then each range
    /// bound that is set, in the endpoint's order.
    pub open spec fn spec_params(&self) -> Seq<(Seq<char>, Seq<char>)> {
        seq![("symbol"@, self.symbol@), ("interval"@, self.interval@)] + (match self.start_time {
            Some(t) => seq![("startTime"@, spec_u64_string(t as nat))],
            None => Seq::empty(),
        }) + (match self.end_time {
            Some(t) => seq![("endTime"@, spec_u64_string(t as nat))],
            None => Seq::empty(),
        }) + (match self.limit {
            Some(l) => seq![("limit"@, spec_u64_string(l as nat))],
            None => Seq::empty(),
        })
    }

    /// The query string of this request, entries in their canonical order.
    pub fn get_params(&self) -> (r: String)
        ensures
            r@ == spec_query(self.spec_params()),
    {
        let mut entries: Vec<(String, String)> = Vec::new();
        push_param(&mut entries, "symbol", self.symbol.clone());
        push_param(&mut entries, "interval", self.interval.clone());
        match self.start_time {
            Some(t) => push_param(&mut entries, "startTime", u64_string(t)),
            None => {},
        }
        match self.end_time {
            Some(t) => push_param(&mut entries, "endTime", u64_string(t)),
            None => {},
        }
        match self.limit {
            Some(l) => push_param(&mut entries, "limit", u64_string(l as u64)),
            None => {},
        }
        proof {
            assert(pair_views(entries@) =~= self.spec_params());
            reveal_strlit("symbol");
            reveal_strlit("interval");
            reveal_strlit("startTime");
            reveal_strlit("endTime");
            reveal_strlit("limit");
            crate::util::lemma_keep_named_identity(self.spec_params());
        }
        build_request(&entries)
    }
}

/// One candlestick. Times and trade counts are numbers; prices and volumes
/// stay in the wire's decimal-string form.
#[derive(Debug, Clone, PartialEq, Eq)]
pub struct KlineSummary {
    pub open_time: i64,
    pub open: String,
    pub high: String,
    pub low: String,
    pub close: String,
    pub volume: String,
    pub close_time: i64,
    pub quote_asset_volume: String,
    pub number_of_trades: i64,
    pub taker_buy_base_asset_volume: String,
    pub taker_buy_quote_asset_volume: String,
}

/// Whether a kline response row is complete: at least eleven values, with
/// the times and trade count as numbers and every price and volume as a
/// string.
pub open spec fn spec_kline_ok(row: Seq<serde_json::Value>) -> bool {
    &&& row.len() >= 11
    &&& json_i64_of(row[0]) is Some
    &&& json_str_of(row[1]) is Some
    &&& json_str_of(row[2]) is Some
    &&& json_str_of(row[3]) is Some
    &&& json_str_of(row[4]) is Some
    &&& json_str_of(row[5]) is Some
    &&& json_i64_of(row[6]) is Some
    &&& json_str_of(row[7]) is Some
    &&& json_i64_of(row[8]) is Some
    &&& json_str_of(row[9]) is Some
    &&& json_str_of(row[10]) is Some
}

/// How a decoded candle relates to its response row: each field carries the
/// value at its position.
pub open spec fn spec_kline_fields(k: KlineSummary, row: Seq<serde_json::Value>) -> bool {
    &&& k.open_time == json_i64_of(row[0])->Some_0
    &&& k.open@ == json_str_of(row[1])->Some_0
    &&& k.high@ == json_str_of(row[2])->Some_0
    &&& k.low@ == json_str_of(row[3])->Some_0
    &&& k.close@ == json_str_of(row[4])->Some_0
    &&& k.volume@ == json_str_of(row[5])->Some_0
    &&& k.close_time == json_i64_of(row[6])->Some_0
    &&& k.quote_asset_volume@ == json_str_of(row[7])->Some_0
    &&& k.number_of_trades == json_i64_of(row[8])->Some_0
    &&& k.taker_buy_base_asset_volume@ == json_str_of(row[9])->Some_0
    &&& k.taker_buy_quote_asset_volume@ == json_str_of(row[10])->Some_0
}

/// Reads one kline response row. The endpoint sends each candle as an array
/// of at least eleven values; the row decodes exactly when it is complete,
/// and a shorter or mistyped row yields `None`.
pub fn kline_from_row(row: &Vec<serde_json::Value>) -> (r: Option<KlineSummary>)
    ensures
        (r is Some) <==> spec_kline_ok(row@),
        r is Some ==> spec_kline_fields(r->Some_0, row@),
{
    if row.len() < 11 {
        return None;
    }
    let open_time = match json_as_i64(&row[0]) {
        Some(n) => n,
        None => return None,
    };
    let open = match json_as_string(&row[1]) {
        Some(s) => s,
        None => return None,
    };
    let high = match json_as_string(&row[2]) {
        Some(s) => s,
        None => return None,
    };
    let low = match json_as_string(&row[3]) {
        Some(s) => s,
        None => return None,
    };
    let close = match json_as_string(&row[4]) {
        Some(s) => s,
        None => return None,
    };
    let volume = match json_as_string(&row[5]) {
        Some(s) => s,
        None => return None,
    };
    let close_time = match json_as_i64(&row[6]) {
        Some(n) => n,
        None => return None,
    };
    let quote_asset_volume = match json_as_string(&row[7]) {
        Some(s) => s,
        None => return None,
    };
    let number_of_trades = match json_as_i64(&row[8]) {
        Some(n) => n,
        None => return None,
    };
    let taker_buy_base_asset_volume = match json_as_string(&row[9]) {
        Some(s) => s,
        None => return None,
    };
    let taker_buy_quote_asset_volume = match json_as_string(&row[10]) {
        Some(s) => s,
        None => return None,
    };
    Some(KlineSummary {
        open_time,
        open,
        high,
        low,
        close,
        volume,
        close_time,
        quote_asset_volume,
        number_of_trades,
        taker_buy_base_asset_volume,
        taker_buy_quote_asset_volume,
    })
}

/// Reads a whole kline response. The batch decodes exactly when every row
/// is complete — a single bad row fails the batch rather than being
/// dropped — and each decoded candle carries its row's values, in order.
pub fn klines_from_rows(rows: &Vec<Vec<serde_json::Value>>) -> (r: Option<Vec<KlineSummary>>)
    ensures
        (r is Some) <==> (forall|i: int|
            0 <= i < rows@.len() ==> spec_kline_ok(#[trigger] rows@[i]@)),
        r is Some ==> r->Some_0@.len() == rows@.len() && forall|i: int|
            0 <= i < rows@.len() ==> spec_kline_fields(#[trigger] r->Some_0@[i], rows@[i]@),
{
    let mut out: Vec<KlineSummary> = Vec::new();
    let mut i: usize = 0;
    while i < rows.len()
        invariant
            i <= rows@.len(),
            out@.len() == i,
            forall|j: int| 0 <= j < i ==> spec_kline_ok(#[trigger] rows@[j]@),
            forall|j: int| 0 <= j < i ==> spec_kline_fields(#[trigger] out@[j], rows@[j]@),
        decreases rows@.len() - i,
    {
        match kline_from_row(&rows[i]) {
            Some(k) => out.push(k),
            None => return None,
        }
        i = i + 1;
    }
    Some(out)
}

} // verus!
