//! The streaming engine: topic-name builders, the combined-stream URL, the
//! tagged event decoder, and the session lifecycle that a caller's receive
//! loop drives one frame at a time.

use vstd::prelude::*;
use vstd::string::StringSliceAdditionalSpecFns;
use crate::config::Config;
use crate::errors::BinanceError;
use crate::futures::ws_model::{spec_trade_event_ok, trade_event_from_value, TradeEvent};
use crate::jsonval::{
    json_as_string, json_get, json_get_cloned, json_member_of, json_parsed_of, json_str_of,
    parse_json,
};
use crate::util::{spec_u64_string, str_eq, u64_string};

verus! {

/// Topic token for the aggregated-trade channel of a symbol.
pub fn agg_trade_stream(symbol: &str) -> (r: String)
    ensures
        r@ == symbol@ + "@aggTrade"@,
{
    let mut s = symbol.to_owned();
    s.append("@aggTrade");
    s
}

/// Topic token for the kline channel of a symbol at an interval.
pub fn kline_stream(symbol: &str, interval: &str) -> (r: String)
    ensures
        r@ == symbol@ + "@kline_"@ + interval@,
{
    let mut s = symbol.to_owned();
    s.append("@kline_");
    s.append(interval);
    s
}

/// Topic token for the mini-ticker channel of a symbol.
pub fn mini_ticker_stream(symbol: &str) -> (r: String)
    ensures
        r@ == symbol@ + "@miniTicker"@,
{
    let mut s = symbol.to_owned();
    s.append("@miniTicker");
    s
}

/// Topic token for the all-market mini-ticker channel.
pub fn all_mini_ticker_stream() -> (r: &'static str)
    ensures
        r@ == "!miniTicker@arr"@,
{
    "!miniTicker@arr"
}

/// Topic token for the full ticker channel of a symbol.
pub fn ticker_stream(symbol: &str) -> (r: String)
    ensures
        r@ == symbol@ + "@ticker"@,
{
    let mut s = symbol.to_owned();
    s.append("@ticker");
    s
}

/// Topic token for the all-market ticker channel.
pub fn all_ticker_stream() -> (r: &'static str)
    ensures
        r@ == "!ticker@arr"@,
{
    "!ticker@arr"
}

/// Topic token for the raw trade channel of a symbol.
pub fn trade_stream(symbol: &str) -> (r: String)
    ensures
        r@ == symbol@ + "@trade"@,
{
    let mut s = symbol.to_owned();
    s.append("@trade");
    s
}

/// Topic token for the best-bid/ask channel of a symbol.
pub fn book_ticker_stream(symbol: &str) -> (r: String)
    ensures
        r@ == symbol@ + "@bookTicker"@,
{
    let mut s = symbol.to_owned();
    s.append("@bookTicker");
    s
}

/// Topic token for the all-market best-bid/ask channel.
pub fn all_book_ticker_stream() -> (r: &'static str)
    ensures
        r@ == "!bookTicker"@,
{
    "!bookTicker"
}

/// Topic token for a partial order-book snapshot: `levels` is one of 5, 10
/// or 20 and `update_speed` one of 1000 or 100; the builder only formats,
/// callers validate.
pub fn partial_book_depth_stream(symbol: &str, levels: u16, update_speed: u16) -> (r: String)
    ensures
        r@ == symbol@ + "@depth"@ + spec_u64_string(levels as nat) + "@"@ + spec_u64_string(
            update_speed as nat,
        ) + "ms"@,
{
    let mut s = symbol.to_owned();
    s.append("@depth");
    let lv = u64_string(levels as u64);
    s.append(lv.as_str());
    s.append("@");
    let sp = u64_string(update_speed as u64);
    s.append(sp.as_str());
    s.append("ms");
    s
}

/// Topic token for the order-book diff channel of a symbol.
pub fn diff_book_depth_stream(symbol: &str, update_speed: u16) -> (r: String)
    ensures
        r@ == symbol@ + "@depth@"@ + spec_u64_string(update_speed as nat) + "ms"@,
{
    let mut s = symbol.to_owned();
    s.append("@depth@");
    let sp = u64_string(update_speed as u64);
    s.append(sp.as_str());
    s.append("ms");
    s
}

/// The views of a list of owned topic names.
pub open spec fn topic_views(ss: Seq<String>) -> Seq<Seq<char>> {
    ss.map_values(|s: String| s@)
}

/// Topic names joined with `/`, in the order given.
pub open spec fn spec_combined(streams: Seq<Seq<char>>) -> Seq<char>
    decreases streams.len(),
{
    if streams.len() == 0 {
        Seq::empty()
    } else if streams.len() == 1 {
        streams[0]
    } else {
        spec_combined(streams.drop_last()) + seq!['/'] + streams.last()
    }
}

/// Law: combining two topics keeps their order and separates them with one
/// `/`.
pub proof fn lemma_combined_pair(a: Seq<char>, b: Seq<char>)
    ensures
        spec_combined(seq![a, b]) == a + seq!['/'] + b,
{
    let s = seq![a, b];
    assert(s.drop_last() =~= seq![a]);
    assert(s.last() == b);
    assert(spec_combined(seq![a]) == seq![a][0]);
    assert(spec_combined(s) =~= a + seq!['/'] + b);
}

/// Joins topic names with `/` for the combined-stream connection path,
/// keeping their order.
pub fn combined_stream(streams: &Vec<String>) -> (r: String)
    ensures
        r@ == spec_combined(topic_views(streams@)),
{
    let ghost views = topic_views(streams@);
    let mut r = String::new();
    let mut i: usize = 0;
    proof {
        assert(views.take(0) =~= Seq::<Seq<char>>::empty());
    }
    while i < streams.len()
        invariant
            i <= streams.len(),
            views == topic_views(streams@),
            views.len() == streams@.len(),
            r@ == spec_combined(views.take(i as int)),
        decreases streams.len() - i,
    {
        if i > 0 {
            crate::util::string_push(&mut r, '/');
        }
        r.append(streams[i].as_str());
        proof {
            assert(views.take(i + 1).drop_last() =~= views.take(i as int));
            assert(views.take(i + 1).last() == views[i as int]);
            assert(r@ =~= spec_combined(views.take(i + 1)));
        }
        i = i + 1;
    }
    proof {
        assert(views.take(streams@.len() as int) =~= views);
    }
    r
}

/// The discriminator values the decoder accepts. Any other tag fails decode.
pub open spec fn known_tag(tag: Seq<char>) -> bool {
    ||| tag == "aggTrade"@
    ||| tag == "trade"@
    ||| tag == "kline"@
    ||| tag == "24hrTicker"@
    ||| tag == "24hrMiniTicker"@
    ||| tag == "depthUpdate"@
    ||| tag == "outboundAccountPosition"@
    ||| tag == "balanceUpdate"@
    ||| tag == "executionReport"@
    ||| tag == "listStatus"@
}

/// One decoded stream event. The trade variant carries its typed payload;
/// the other variants carry the decoded JSON object of their payload shape.
#[derive(Debug, Clone)]
pub enum FuturesWebsocketEvent {
    AggTrade(serde_json::Value),
    Trade(Box<TradeEvent>),
    Kline(serde_json::Value),
    DayTicker(serde_json::Value),
    DayMiniTicker(serde_json::Value),
    DepthOrderBook(serde_json::Value),
    AccountPositionUpdate(serde_json::Value),
    BalanceUpdate(serde_json::Value),
    OrderUpdate(serde_json::Value),
    ListOrderUpdate(serde_json::Value),
}

/// The ten accepted discriminators are pairwise distinct character
/// sequences.
proof fn lemma_tags_distinct()
    ensures
        "aggTrade"@.len() == 8,
        "trade"@.len() == 5,
        "kline"@.len() == 5,
        "trade"@ != "kline"@,
        "24hrTicker"@.len() == 10,
        "24hrMiniTicker"@.len() == 14,
        "depthUpdate"@.len() == 11,
        "outboundAccountPosition"@.len() == 23,
        "balanceUpdate"@.len() == 13,
        "executionReport"@.len() == 15,
        "listStatus"@.len() == 10,
        "24hrTicker"@ != "listStatus"@,
{
    reveal_strlit("aggTrade");
    reveal_strlit("trade");
    reveal_strlit("kline");
    reveal_strlit("24hrTicker");
    reveal_strlit("24hrMiniTicker");
    reveal_strlit("depthUpdate");
    reveal_strlit("outboundAccountPosition");
    reveal_strlit("balanceUpdate");
    reveal_strlit("executionReport");
    reveal_strlit("listStatus");
    assert("trade"@[0] == 't');
    assert("kline"@[0] == 'k');
    assert("24hrTicker"@[0] == '2');
    assert("listStatus"@[0] == 'l');
}

/// Selects the event variant named by the discriminator. An unrecognized
/// tag yields `None`, never a default variant; a recognized tag yields its
/// matching variant, and for the typed trade payload exactly when every
/// field is present.
pub fn event_from_tag(tag: &str, payload: serde_json::Value) -> (r: Option<FuturesWebsocketEvent>)
    ensures
        !known_tag(tag@) ==> r is None,
        r is Some ==> known_tag(tag@),
        known_tag(tag@) && tag@ != "trade"@ ==> r is Some,
        tag@ == "aggTrade"@ ==> (r matches Some(FuturesWebsocketEvent::AggTrade(_))),
        tag@ == "trade"@ ==> ((r is Some) <==> spec_trade_event_ok(payload)),
        tag@ == "trade"@ ==> (r is None || (r matches Some(FuturesWebsocketEvent::Trade(_)))),
        tag@ == "kline"@ ==> (r matches Some(FuturesWebsocketEvent::Kline(_))),
        tag@ == "24hrTicker"@ ==> (r matches Some(FuturesWebsocketEvent::DayTicker(_))),
        tag@ == "24hrMiniTicker"@ ==> (r matches Some(FuturesWebsocketEvent::DayMiniTicker(_))),
        tag@ == "depthUpdate"@ ==> (r matches Some(FuturesWebsocketEvent::DepthOrderBook(_))),
        tag@ == "outboundAccountPosition"@ ==> (r matches Some(
            FuturesWebsocketEvent::AccountPositionUpdate(_),
        )),
        tag@ == "balanceUpdate"@ ==> (r matches Some(FuturesWebsocketEvent::BalanceUpdate(_))),
        tag@ == "executionReport"@ ==> (r matches Some(FuturesWebsocketEvent::OrderUpdate(_))),
        tag@ == "listStatus"@ ==> (r matches Some(FuturesWebsocketEvent::ListOrderUpdate(_))),
{
    proof {
        lemma_tags_distinct();
    }
    if str_eq(tag, "aggTrade") {
        Some(FuturesWebsocketEvent::AggTrade(payload))
    } else if str_eq(tag, "trade") {
        match trade_event_from_value(&payload) {
            Some(ev) => Some(FuturesWebsocketEvent::Trade(Box::new(ev))),
            None => None,
        }
    } else if str_eq(tag, "kline") {
        Some(FuturesWebsocketEvent::Kline(payload))
    } else if str_eq(tag, "24hrTicker") {
        Some(FuturesWebsocketEvent::DayTicker(payload))
    } else if str_eq(tag, "24hrMiniTicker") {
        Some(FuturesWebsocketEvent::DayMiniTicker(payload))
    } else if str_eq(tag, "depthUpdate") {
        Some(FuturesWebsocketEvent::DepthOrderBook(payload))
    } else if str_eq(tag, "outboundAccountPosition") {
        Some(FuturesWebsocketEvent::AccountPositionUpdate(payload))
    } else if str_eq(tag, "balanceUpdate") {
        Some(FuturesWebsocketEvent::BalanceUpdate(payload))
    } else if str_eq(tag, "executionReport") {
        Some(FuturesWebsocketEvent::OrderUpdate(payload))
    } else if str_eq(tag, "listStatus") {
        Some(FuturesWebsocketEvent::ListOrderUpdate(payload))
    } else {
        None
    }
}

/// The object a frame's event is read from: the `data` member of the parsed
/// text when the envelope carries one, the whole parsed object otherwise.
pub open spec fn spec_frame_payload(text: Seq<char>) -> serde_json::Value {
    let v = json_parsed_of(text)->Some_0;
    match json_member_of(v, "data"@) {
        Some(d) => d,
        None => v,
    }
}

/// The discriminator string of a frame, when its payload object carries an
/// `e` string member.
pub open spec fn spec_frame_tag(text: Seq<char>) -> Option<Seq<char>> {
    match json_member_of(spec_frame_payload(text), "e"@) {
        Some(t) => json_str_of(t),
        None => None,
    }
}

/// Whether a text frame decodes: the text parses as JSON, the selected
/// payload object carries a known `e` discriminator, and for a trade the
/// typed payload is complete.
pub open spec fn spec_frame_decodes(text: Seq<char>) -> bool {
    &&& json_parsed_of(text) is Some
    &&& spec_frame_tag(text) is Some
    &&& known_tag(spec_frame_tag(text)->Some_0)
    &&& (spec_frame_tag(text)->Some_0 == "trade"@ ==> spec_trade_event_ok(
        spec_frame_payload(text),
    ))
}

/// Decodes one inbound text frame. A combined-stream envelope
/// `{"stream":..,"data":..}` is unwrapped to its `data` object first; a bare
/// event object is decoded directly. Either way the `e` discriminator
/// selects the variant: the frame decodes exactly when the text parses and
/// the selected object carries a known discriminator (with, for a trade,
/// its full typed payload), and any failure is a decode error carrying only
/// the frame's size.
pub fn decode_frame(text: &str) -> (r: Result<FuturesWebsocketEvent, BinanceError>)
    ensures
        (r is Ok) <==> spec_frame_decodes(text@),
        r is Err ==> r->Err_0 == (BinanceError::Decode {
            payload_len: text.spec_bytes().len() as usize,
        }),
{
    let payload_len = text.len();
    let v = match parse_json(text) {
        Some(v) => v,
        None => return Err(BinanceError::Decode { payload_len }),
    };
    let data = match json_get_cloned(&v, "data") {
        Some(d) => d,
        None => v,
    };
    let tag = match json_get(&data, "e") {
        Some(t) => match json_as_string(t) {
            Some(s) => s,
            None => return Err(BinanceError::Decode { payload_len }),
        },
        None => return Err(BinanceError::Decode { payload_len }),
    };
    match event_from_tag(tag.as_str(), data) {
        Some(ev) => Ok(ev),
        None => Err(BinanceError::Decode { payload_len }),
    }
}

/// One inbound websocket frame, as plain data.
pub enum WsFrame {
    Text(String),
    Binary(Vec<u8>),
    Ping(Vec<u8>),
    Pong(Vec<u8>),
    Close,
}

/// What the receive loop does with one frame: hand a decoded event to the
/// handler, ignore the frame, or stop with an error.
#[derive(Debug)]
pub enum FrameAction {
    Dispatch(FuturesWebsocketEvent),
    Ignore,
    Stop(BinanceError),
}

/// Decides one step of the receive loop. A close frame stops the loop with
/// `Disconnected`; ping, pong and binary frames are ignored; a text frame
/// either dispatches its decoded event or, failing fast, stops the loop
/// with the decode error.
pub fn handle_frame(frame: WsFrame) -> (r: FrameAction)
    ensures
        frame is Close ==> r == FrameAction::Stop(BinanceError::Disconnected),
        (frame is Ping || frame is Pong || frame is Binary) ==> r is Ignore,
        frame is Text ==> ((r is Dispatch) <==> spec_frame_decodes(frame->Text_0@)),
        frame is Text ==> (r is Dispatch || r == FrameAction::Stop(
            BinanceError::Decode {
                payload_len: vstd::utf8::encode_utf8(frame->Text_0@).len() as usize,
            },
        )),
{
    match frame {
        WsFrame::Text(msg) => match decode_frame(msg.as_str()) {
            Ok(ev) => FrameAction::Dispatch(ev),
            Err(e) => FrameAction::Stop(e),
        },
        WsFrame::Close => FrameAction::Stop(BinanceError::Disconnected),
        WsFrame::Binary(_) => FrameAction::Ignore,
        WsFrame::Ping(_) => FrameAction::Ignore,
        WsFrame::Pong(_) => FrameAction::Ignore,
    }
}

/// Where a session stands: no socket yet, live, or torn down.
#[derive(Debug, Clone, Copy, PartialEq, Eq, Structural)]
pub enum SessionState {
    Idle,
    Connected,
    Closed,
}

/// One streaming session: at most one live connection, driven by a caller's
/// receive loop. The caller performs the handshake and frame reads and feeds
/// their outcomes back through the state transitions here.
pub struct FuturesWebSockets {
    pub state: SessionState,
    pub conf: Config,
}

impl FuturesWebSockets {
    /// A fresh idle session against the production hosts.
    pub fn new() -> (r: FuturesWebSockets)
        ensures
            r.state is Idle,
            r.conf.futures_ws_endpoint@ == "wss://fstream.binance.com"@,
    {
        FuturesWebSockets { state: SessionState::Idle, conf: Config::new() }
    }

    /// A fresh idle session with the given configuration.
    pub fn new_with_options(conf: Config) -> (r: FuturesWebSockets)
        ensures
            r.state is Idle,
            r.conf == conf,
    {
        FuturesWebSockets { state: SessionState::Idle, conf }
    }

    /// The URL of a single-stream connection: `<ws-base>/ws/<topic>`.
    pub fn connect_url(&self, endpoint: &str) -> (r: String)
        ensures
            r@ == self.conf.futures_ws_endpoint@ + "/ws/"@ + endpoint@,
    {
        let mut s = self.conf.futures_ws_endpoint.clone();
        s.append("/ws/");
        s.append(endpoint);
        s
    }

    /// The URL of a combined-stream connection:
    /// `<ws-base>/stream?streams=<topic1>/<topic2>/...`, topics in the order
    /// given.
    pub fn connect_multiple_url(&self, endpoints: &Vec<String>) -> (r: String)
        ensures
            r@ == self.conf.futures_ws_endpoint@ + "/stream?streams="@ + spec_combined(
                topic_views(endpoints@),
            ),
    {
        let joined = combined_stream(endpoints);
        let mut s = self.conf.futures_ws_endpoint.clone();
        s.append("/stream?streams=");
        s.append(joined.as_str());
        s
    }

    /// Records the outcome of a handshake attempted while idle: on success
    /// the session is connected, on failure it stays idle and the error
    /// surfaces.
    pub fn on_handshake(&mut self, ok: bool, detail: String) -> (r: Result<(), BinanceError>)
        requires
            old(self).state is Idle,
        ensures
            final(self).conf == old(self).conf,
            ok ==> final(self).state is Connected && r is Ok,
            !ok ==> final(self).state is Idle && r == Err::<(), BinanceError>(
                BinanceError::Handshake(detail),
            ),
    {
        if ok {
            self.state = SessionState::Connected;
            Ok(())
        } else {
            Err(BinanceError::Handshake(detail))
        }
    }

    /// Decides one step of the receive loop for this session, and tears the
    /// session down when the step stops the loop.
    pub fn event_step(&mut self, frame: WsFrame) -> (r: FrameAction)
        requires
            old(self).state is Connected,
        ensures
            final(self).conf == old(self).conf,
            frame is Close ==> r == FrameAction::Stop(BinanceError::Disconnected),
            (frame is Ping || frame is Pong || frame is Binary) ==> r is Ignore,
            frame is Text ==> ((r is Dispatch) <==> spec_frame_decodes(frame->Text_0@)),
            frame is Text ==> (r is Dispatch || r == FrameAction::Stop(
                BinanceError::Decode {
                    payload_len: vstd::utf8::encode_utf8(frame->Text_0@).len() as usize,
                },
            )),
            (r is Dispatch || r is Ignore) ==> final(self).state is Connected,
            r is Stop ==> final(self).state is Closed,
    {
        let action = handle_frame(frame);
        match &action {
            FrameAction::Stop(_) => {
                self.state = SessionState::Closed;
            },
            _ => {},
        }
        action
    }

    /// Tears down a connected session; asking to disconnect a session that
    /// is not connected fails and changes nothing.
    pub fn disconnect(&mut self) -> (r: Result<(), BinanceError>)
        ensures
            final(self).conf == old(self).conf,
            old(self).state is Connected ==> final(self).state is Closed && r is Ok,
            !(old(self).state is Connected) ==> final(self).state == old(self).state && r
                == Err::<(), BinanceError>(BinanceError::Disconnected),
    {
        match self.state {
            SessionState::Connected => {
                self.state = SessionState::Closed;
                Ok(())
            },
            _ => Err(BinanceError::Disconnected),
        }
    }
}

} // verus!
