//! The Kraken adapter: ticker channel over the public stream. Event
//! frames are objects keyed by `event`; data frames are arrays whose
//! second element holds `b`/`a` as `[price, size, ...]` string arrays.
//! Kraken names some assets its own way (BTC is XBT), so the native
//! symbol goes through the translation table.
use crate::exchanges::{
    arr_elem, build_quote, opt_get, opt_str, scaled_elem, spec_arr_elem, spec_opt_get,
    spec_opt_str, spec_parse_frame, spec_quote, spec_scaled_elem,
};
use crate::json::JsonValue;
use crate::models::{Config, ControlKind, OutcomeView, ParseOutcome, Venue};
use crate::translate::{spec_translate, translate};
use vstd::prelude::*;

verus! {

/// Heartbeats and subscribe acknowledgments, both absorbed.
pub open spec fn spec_is_kraken_control(j: JsonValue) -> bool {
    spec_opt_str(j.spec_get("event"@)) == Some("heartbeat"@) || spec_opt_str(
        j.spec_get("event"@),
    ) == Some("subscribe"@)
}

pub open spec fn spec_parse_kraken(j: JsonValue, symbol: Seq<char>, now_ms: u64) -> OutcomeView {
    let ev = spec_opt_str(j.spec_get("event"@));
    if ev == Some("heartbeat"@) {
        OutcomeView::Control(ControlKind::Heartbeat)
    } else if ev == Some("subscribe"@) {
        OutcomeView::Control(ControlKind::SubscribeAck)
    } else if ev == Some("error"@) {
        OutcomeView::VenueError(
            crate::exchanges::or_empty(spec_opt_str(j.spec_get("errorMessage"@))),
        )
    } else {
        match j.spec_arr() {
            Some(items) => {
                if items.len() >= 2 {
                    let ticker = Some(items[1]);
                    OutcomeView::Quote(
                        spec_quote(
                            Venue::Kraken,
                            symbol,
                            spec_scaled_elem(spec_arr_elem(spec_opt_get(ticker, "b"@), 0)),
                            spec_scaled_elem(spec_arr_elem(spec_opt_get(ticker, "b"@), 1)),
                            spec_scaled_elem(spec_arr_elem(spec_opt_get(ticker, "a"@), 0)),
                            spec_scaled_elem(spec_arr_elem(spec_opt_get(ticker, "a"@), 1)),
                            now_ms,
                        ),
                    )
                } else {
                    OutcomeView::Empty
                }
            },
            None => OutcomeView::Failure,
        }
    }
}

pub struct KrakenClient {
    pub config: Config,
}

impl KrakenClient {
    pub fn new(config: Config) -> (r: Self)
        ensures
            r.config == config,
    {
        KrakenClient { config }
    }

    /// The venue's native form of a venue-neutral symbol.
    pub fn convert_symbol(&self, symbol: &str) -> (r: String)
        ensures
            r@ == spec_translate(Venue::Kraken, symbol@),
    {
        translate(Venue::Kraken, symbol)
    }

    /// The fixed public stream endpoint.
    pub fn endpoint_url(&self) -> (r: String)
        ensures
            r@ == "wss://ws.kraken.com"@,
    {
        String::from_str("wss://ws.kraken.com")
    }

    /// The subscribe handshake for the ticker channel, on the translated
    /// native pair.
    pub fn subscribe_message(&self) -> (r: String)
        ensures
            r@ == "{\"event\":\"subscribe\",\"pair\":[\""@ + spec_translate(
                Venue::Kraken,
                self.config.symbol@,
            ) + "\"],\"subscription\":{\"name\":\"ticker\"}}"@,
    {
        let native = self.convert_symbol(self.config.symbol.as_str());
        let mut m = String::from_str("{\"event\":\"subscribe\",\"pair\":[\"");
        m.append(native.as_str());
        m.append("\"],\"subscription\":{\"name\":\"ticker\"}}");
        m
    }

    /// Classifies one parsed frame. Records keep the venue-neutral symbol
    /// the subscription was made with.
    pub fn parse_frame(&self, j: &JsonValue, now_ms: u64) -> (r: ParseOutcome)
        ensures
            r@ == spec_parse_frame(Venue::Kraken, *j, self.config.symbol@, now_ms),
    {
        let ev = opt_str(j.get("event"));
        if let Some(e) = ev {
            if crate::strutil::str_eq(e, "heartbeat") {
                return ParseOutcome::Control(ControlKind::Heartbeat);
            }
            if crate::strutil::str_eq(e, "subscribe") {
                return ParseOutcome::Control(ControlKind::SubscribeAck);
            }
            if crate::strutil::str_eq(e, "error") {
                let m = match opt_str(j.get("errorMessage")) {
                    Some(m) => m,
                    None => "",
                };
                proof {
                    reveal_strlit("");
                    assert(""@ =~= Seq::<char>::empty());
                }
                return ParseOutcome::VenueError(m.to_owned());
            }
        }
        match j.as_arr() {
            Some(items) => {
                if items.len() >= 2 {
                    let ticker = Some(&items[1]);
                    let bids = opt_get(ticker, "b");
                    let asks = opt_get(ticker, "a");
                    let bid = scaled_elem(arr_elem(bids, 0));
                    let bid_volume = scaled_elem(arr_elem(bids, 1));
                    let ask = scaled_elem(arr_elem(asks, 0));
                    let ask_volume = scaled_elem(arr_elem(asks, 1));
                    ParseOutcome::Quote(
                        build_quote(
                            Venue::Kraken,
                            self.config.symbol.clone(),
                            bid,
                            bid_volume,
                            ask,
                            ask_volume,
                            now_ms,
                        ),
                    )
                } else {
                    ParseOutcome::Empty
                }
            },
            None => ParseOutcome::Failure,
        }
    }

    /// Classifies one raw text frame: malformed JSON is a parse failure.
    pub fn parse_text(&self, raw: &str, now_ms: u64) -> (r: ParseOutcome)
        ensures
            r@ == match crate::json::parsed_json(raw@) {
                Some(j) => spec_parse_frame(Venue::Kraken, j, self.config.symbol@, now_ms),
                None => OutcomeView::Failure,
            },
    {
        match crate::json::parse_json(raw) {
            Some(j) => self.parse_frame(&j, now_ms),
            None => ParseOutcome::Failure,
        }
    }
}

} // verus!
