//! The Binance adapter. Subscription happens through the stream URL path,
//! so connecting needs no separate handshake message; the ticker stream
//! delivers bid and ask as top-level string fields.
use crate::exchanges::{
    build_quote, opt_str, scaled_elem, spec_opt_str, spec_parse_frame, spec_quote,
    spec_scaled_elem,
};
use crate::json::JsonValue;
use crate::models::{Config, ControlKind, OutcomeView, ParseOutcome, Venue};
use vstd::prelude::*;

verus! {

/// A venue-reported error frame: a `code` beside a string `msg`.
pub open spec fn spec_is_binance_error(j: JsonValue) -> bool {
    j.spec_get("code"@) is Some && spec_opt_str(j.spec_get("msg"@)) is Some
}

/// A subscribe acknowledgment: a `result` member on a non-error frame.
pub open spec fn spec_is_binance_control(j: JsonValue) -> bool {
    !spec_is_binance_error(j) && j.spec_get("result"@) is Some
}

pub open spec fn spec_parse_binance(j: JsonValue, now_ms: u64) -> OutcomeView {
    if spec_is_binance_error(j) {
        OutcomeView::VenueError(crate::exchanges::or_empty(spec_opt_str(j.spec_get("msg"@))))
    } else if j.spec_get("result"@) is Some {
        OutcomeView::Control(ControlKind::SubscribeAck)
    } else if spec_opt_str(j.spec_get("s"@)) is Some {
        OutcomeView::Quote(
            spec_quote(
                Venue::Binance,
                crate::exchanges::or_empty(spec_opt_str(j.spec_get("s"@))),
                spec_scaled_elem(j.spec_get("b"@)),
                spec_scaled_elem(j.spec_get("B"@)),
                spec_scaled_elem(j.spec_get("a"@)),
                spec_scaled_elem(j.spec_get("A"@)),
                now_ms,
            ),
        )
    } else {
        OutcomeView::Failure
    }
}

pub struct BinanceClient {
    pub config: Config,
}

impl BinanceClient {
    pub fn new(config: Config) -> (r: Self)
        ensures
            r.config == config,
    {
        BinanceClient { config }
    }

    /// The stream endpoint; the path carries the lowercased native symbol
    /// and subscribes by itself.
    pub fn endpoint_url(&self) -> (r: String)
        ensures
            r@ == "wss://stream.binance.com:9443/ws/"@ + crate::strutil::lower_of(
                self.config.symbol@,
            ) + "@ticker"@,
    {
        let lower = crate::strutil::lowercase(self.config.symbol.as_str());
        let mut url = String::from_str("wss://stream.binance.com:9443/ws/");
        url.append(lower.as_str());
        url.append("@ticker");
        url
    }

    /// Classifies one parsed frame.
    pub fn parse_frame(&self, j: &JsonValue, now_ms: u64) -> (r: ParseOutcome)
        ensures
            r@ == spec_parse_frame(Venue::Binance, *j, self.config.symbol@, now_ms),
    {
        let has_code = j.get("code").is_some();
        let msg = opt_str(j.get("msg"));
        if has_code && msg.is_some() {
            let m = match msg {
                Some(m) => m,
                None => "",
            };
            return ParseOutcome::VenueError(m.to_owned());
        }
        if j.get("result").is_some() {
            return ParseOutcome::Control(ControlKind::SubscribeAck);
        }
        match opt_str(j.get("s")) {
            Some(sym) => {
                let bid = scaled_elem(j.get("b"));
                let bid_volume = scaled_elem(j.get("B"));
                let ask = scaled_elem(j.get("a"));
                let ask_volume = scaled_elem(j.get("A"));
                ParseOutcome::Quote(
                    build_quote(
                        Venue::Binance,
                        sym.to_owned(),
                        bid,
                        bid_volume,
                        ask,
                        ask_volume,
                        now_ms,
                    ),
                )
            },
            None => ParseOutcome::Failure,
        }
    }

    /// Classifies one raw text frame: malformed JSON is a parse failure.
    pub fn parse_text(&self, raw: &str, now_ms: u64) -> (r: ParseOutcome)
        ensures
            r@ == match crate::json::parsed_json(raw@) {
                Some(j) => spec_parse_frame(Venue::Binance, j, self.config.symbol@, now_ms),
                None => OutcomeView::Failure,
            },
    {
        match crate::json::parse_json(raw) {
            Some(j) => self.parse_frame(&j, now_ms),
            None => ParseOutcome::Failure,
        }
    }
}

} // verus!
