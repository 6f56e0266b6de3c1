//! The OKX adapter: `books` channel on the public v5 stream. Event
//! frames are keyed by `event`; data frames carry an array `data` whose
//! first element holds `bids`/`asks` as `[price, size, ...]` string
//! arrays.
use crate::exchanges::{
    arr_elem, build_quote, opt_get, opt_str, scaled_elem, spec_arr_elem, spec_opt_arr,
    spec_opt_get, spec_opt_str, spec_parse_frame, spec_quote, spec_scaled_elem,
};
use crate::json::JsonValue;
use crate::models::{Config, ControlKind, OutcomeView, ParseOutcome, Venue};
use crate::translate::{spec_translate, translate};
use vstd::prelude::*;

verus! {

/// A subscribe acknowledgment, absorbed.
pub open spec fn spec_is_okx_control(j: JsonValue) -> bool {
    spec_opt_str(j.spec_get("event"@)) == Some("subscribe"@)
}

pub open spec fn spec_parse_okx(j: JsonValue, symbol: Seq<char>, now_ms: u64) -> OutcomeView {
    let ev = spec_opt_str(j.spec_get("event"@));
    if ev == Some("subscribe"@) {
        OutcomeView::Control(ControlKind::SubscribeAck)
    } else if ev == Some("error"@) {
        OutcomeView::VenueError(crate::exchanges::or_empty(spec_opt_str(j.spec_get("msg"@))))
    } else {
        match spec_opt_arr(j.spec_get("data"@)) {
            Some(items) => {
                if items.len() == 0 {
                    OutcomeView::Empty
                } else {
                    let book = spec_arr_elem(j.spec_get("data"@), 0);
                    let bids = spec_opt_arr(spec_opt_get(book, "bids"@));
                    let asks = spec_opt_arr(spec_opt_get(book, "asks"@));
                    match (bids, asks) {
                        (Some(b), Some(a)) => {
                            if b.len() == 0 || a.len() == 0 {
                                OutcomeView::Empty
                            } else {
                                let bid0 = spec_arr_elem(spec_opt_get(book, "bids"@), 0);
                                let ask0 = spec_arr_elem(spec_opt_get(book, "asks"@), 0);
                                OutcomeView::Quote(
                                    spec_quote(
                                        Venue::Okx,
                                        symbol,
                                        spec_scaled_elem(spec_arr_elem(bid0, 0)),
                                        spec_scaled_elem(spec_arr_elem(bid0, 1)),
                                        spec_scaled_elem(spec_arr_elem(ask0, 0)),
                                        spec_scaled_elem(spec_arr_elem(ask0, 1)),
                                        now_ms,
                                    ),
                                )
                            }
                        },
                        _ => OutcomeView::Failure,
                    }
                }
            },
            None => OutcomeView::Failure,
        }
    }
}

pub struct OkxClient {
    pub config: Config,
}

impl OkxClient {
    pub fn new(config: Config) -> (r: Self)
        ensures
            r.config == config,
    {
        OkxClient { config }
    }

    /// The venue's native form of a venue-neutral symbol.
    pub fn convert_symbol(&self, symbol: &str) -> (r: String)
        ensures
            r@ == spec_translate(Venue::Okx, symbol@),
    {
        translate(Venue::Okx, symbol)
    }

    /// The fixed public stream endpoint.
    pub fn endpoint_url(&self) -> (r: String)
        ensures
            r@ == "wss://ws.okx.com:8443/ws/v5/public"@,
    {
        String::from_str("wss://ws.okx.com:8443/ws/v5/public")
    }

    /// The subscribe handshake for the book channel on the native symbol.
    pub fn subscribe_message(&self) -> (r: String)
        ensures
            r@ == "{\"op\":\"subscribe\",\"args\":[{\"channel\":\"books\",\"instId\":\""@
                + spec_translate(Venue::Okx, self.config.symbol@) + "\"}]}"@,
    {
        let native = self.convert_symbol(self.config.symbol.as_str());
        let mut m = String::from_str(
            "{\"op\":\"subscribe\",\"args\":[{\"channel\":\"books\",\"instId\":\"",
        );
        m.append(native.as_str());
        m.append("\"}]}");
        m
    }

    /// Classifies one parsed frame. Records keep the venue-neutral symbol
    /// the subscription was made with.
    pub fn parse_frame(&self, j: &JsonValue, now_ms: u64) -> (r: ParseOutcome)
        ensures
            r@ == spec_parse_frame(Venue::Okx, *j, self.config.symbol@, now_ms),
    {
        if let Some(e) = opt_str(j.get("event")) {
            if crate::strutil::str_eq(e, "subscribe") {
                return ParseOutcome::Control(ControlKind::SubscribeAck);
            }
            if crate::strutil::str_eq(e, "error") {
                let m = match opt_str(j.get("msg")) {
                    Some(m) => m,
                    None => "",
                };
                proof {
                    reveal_strlit("");
                    assert(""@ =~= Seq::<char>::empty());
                }
                return ParseOutcome::VenueError(m.to_owned());
            }
        }
        let data = j.get("data");
        let data_arr = match data {
            Some(x) => x.as_arr(),
            None => None,
        };
        match data_arr {
            Some(items) => {
                if items.len() == 0 {
                    return ParseOutcome::Empty;
                }
                let book = arr_elem(data, 0);
                let bids = opt_get(book, "bids");
                let asks = opt_get(book, "asks");
                let bids_arr = match bids {
                    Some(x) => x.as_arr(),
                    None => None,
                };
                let asks_arr = match asks {
                    Some(x) => x.as_arr(),
                    None => None,
                };
                match (bids_arr, asks_arr) {
                    (Some(b), Some(a)) => {
                        if b.len() == 0 || a.len() == 0 {
                            ParseOutcome::Empty
                        } else {
                            let bid0 = arr_elem(bids, 0);
                            let ask0 = arr_elem(asks, 0);
                            let bid = scaled_elem(arr_elem(bid0, 0));
                            let bid_volume = scaled_elem(arr_elem(bid0, 1));
                            let ask = scaled_elem(arr_elem(ask0, 0));
                            let ask_volume = scaled_elem(arr_elem(ask0, 1));
                            ParseOutcome::Quote(
                                build_quote(
                                    Venue::Okx,
                                    self.config.symbol.clone(),
                                    bid,
                                    bid_volume,
                                    ask,
                                    ask_volume,
                                    now_ms,
                                ),
                            )
                        }
                    },
                    _ => ParseOutcome::Failure,
                }
            },
            None => ParseOutcome::Failure,
        }
    }

    /// Classifies one raw text frame: malformed JSON is a parse failure.
    pub fn parse_text(&self, raw: &str, now_ms: u64) -> (r: ParseOutcome)
        ensures
            r@ == match crate::json::parsed_json(raw@) {
                Some(j) => spec_parse_frame(Venue::Okx, j, self.config.symbol@, now_ms),
                None => OutcomeView::Failure,
            },
    {
        match crate::json::parse_json(raw) {
            Some(j) => self.parse_frame(&j, now_ms),
            None => ParseOutcome::Failure,
        }
    }
}

} // verus!
