//! The Bybit adapter: spot v5 public stream, `orderbook.1.<symbol>`
//! topic, bid and ask levels as arrays of `[price, size]` string pairs.
use crate::exchanges::{
    arr_elem, build_quote, opt_bool, opt_get, opt_str, scaled_elem, spec_arr_elem,
    spec_opt_arr, spec_opt_bool, spec_opt_get, spec_opt_str, spec_parse_frame, spec_quote,
    spec_scaled_elem,
};
use crate::json::JsonValue;
use crate::models::{Config, ControlKind, OutcomeView, ParseOutcome, Venue};
use vstd::prelude::*;

verus! {

/// A subscribe acknowledgment: `success` set to true.
pub open spec fn spec_is_bybit_control(j: JsonValue) -> bool {
    spec_opt_bool(j.spec_get("success"@)) == Some(true)
}

/// An orderbook data frame: a `topic` starting with `orderbook`.
pub open spec fn spec_is_bybit_book(j: JsonValue) -> bool {
    match spec_opt_str(j.spec_get("topic"@)) {
        Some(t) => crate::strutil::spec_starts_with(t, "orderbook"@),
        None => false,
    }
}

pub open spec fn spec_parse_bybit(j: JsonValue, symbol: Seq<char>, now_ms: u64) -> OutcomeView {
    if spec_is_bybit_control(j) {
        OutcomeView::Control(ControlKind::SubscribeAck)
    } else if spec_opt_str(j.spec_get("ret_msg"@)) is Some {
        OutcomeView::VenueError(crate::exchanges::or_empty(spec_opt_str(j.spec_get("ret_msg"@))))
    } else if spec_is_bybit_book(j) {
        {
            let data = j.spec_get("data"@);
            let bids = spec_opt_arr(spec_opt_get(data, "b"@));
            let asks = spec_opt_arr(spec_opt_get(data, "a"@));
            match (bids, asks) {
                (Some(b), Some(a)) => {
                    if b.len() == 0 || a.len() == 0 {
                        OutcomeView::Empty
                    } else {
                        let bid0 = spec_arr_elem(spec_opt_get(data, "b"@), 0);
                        let ask0 = spec_arr_elem(spec_opt_get(data, "a"@), 0);
                        OutcomeView::Quote(
                            spec_quote(
                                Venue::Bybit,
                                symbol,
                                spec_scaled_elem(spec_arr_elem(bid0, 0)),
                                spec_scaled_elem(spec_arr_elem(bid0, 1)),
                                spec_scaled_elem(spec_arr_elem(ask0, 0)),
                                spec_scaled_elem(spec_arr_elem(ask0, 1)),
                                now_ms,
                            ),
                        )
                    }
                },
                _ => OutcomeView::Failure,
            }
        }
    } else {
        OutcomeView::Failure
    }
}

pub struct BybitClient {
    pub config: Config,
}

impl BybitClient {
    pub fn new(config: Config) -> (r: Self)
        ensures
            r.config == config,
    {
        BybitClient { config }
    }

    /// The fixed spot stream endpoint.
    pub fn endpoint_url(&self) -> (r: String)
        ensures
            r@ == "wss://stream.bybit.com/v5/public/spot"@,
    {
        String::from_str("wss://stream.bybit.com/v5/public/spot")
    }

    /// The subscribe handshake for the venue's level-one book topic.
    pub fn subscribe_message(&self) -> (r: String)
        ensures
            r@ == "{\"op\":\"subscribe\",\"args\":[\"orderbook.1."@ + self.config.symbol@
                + "\"]}"@,
    {
        let mut m = String::from_str("{\"op\":\"subscribe\",\"args\":[\"orderbook.1.");
        m.append(self.config.symbol.as_str());
        m.append("\"]}");
        m
    }

    /// Classifies one parsed frame.
    pub fn parse_frame(&self, j: &JsonValue, now_ms: u64) -> (r: ParseOutcome)
        ensures
            r@ == spec_parse_frame(Venue::Bybit, *j, self.config.symbol@, now_ms),
    {
        if let Some(true) = opt_bool(j.get("success")) {
            return ParseOutcome::Control(ControlKind::SubscribeAck);
        }
        if let Some(m) = opt_str(j.get("ret_msg")) {
            return ParseOutcome::VenueError(m.to_owned());
        }
        let is_book = match opt_str(j.get("topic")) {
            Some(t) => crate::strutil::starts_with(t, "orderbook"),
            None => false,
        };
        if !is_book {
            return ParseOutcome::Failure;
        }
        let data = j.get("data");
        let bids = opt_get(data, "b");
        let asks = opt_get(data, "a");
        let bids_arr = match bids {
            Some(x) => x.as_arr(),
            None => None,
        };
        let asks_arr = match asks {
            Some(x) => x.as_arr(),
            None => None,
        };
        match (bids_arr, asks_arr) {
            (Some(b), Some(a)) => {
                if b.len() == 0 || a.len() == 0 {
                    ParseOutcome::Empty
                } else {
                    let bid0 = arr_elem(bids, 0);
                    let ask0 = arr_elem(asks, 0);
                    let bid = scaled_elem(arr_elem(bid0, 0));
                    let bid_volume = scaled_elem(arr_elem(bid0, 1));
                    let ask = scaled_elem(arr_elem(ask0, 0));
                    let ask_volume = scaled_elem(arr_elem(ask0, 1));
                    ParseOutcome::Quote(
                        build_quote(
                            Venue::Bybit,
                            self.config.symbol.clone(),
                            bid,
                            bid_volume,
                            ask,
                            ask_volume,
                            now_ms,
                        ),
                    )
                }
            },
            _ => ParseOutcome::Failure,
        }
    }

    /// Classifies one raw text frame: malformed JSON is a parse failure.
    pub fn parse_text(&self, raw: &str, now_ms: u64) -> (r: ParseOutcome)
        ensures
            r@ == match crate::json::parsed_json(raw@) {
                Some(j) => spec_parse_frame(Venue::Bybit, j, self.config.symbol@, now_ms),
                None => OutcomeView::Failure,
            },
    {
        match crate::json::parse_json(raw) {
            Some(j) => self.parse_frame(&j, now_ms),
            None => ParseOutcome::Failure,
        }
    }
}

} // verus!
