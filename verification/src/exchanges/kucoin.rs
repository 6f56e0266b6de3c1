//! The KuCoin adapter. Connecting needs an out-of-band HTTPS call first:
//! the venue hands out the socket endpoint and a session token, and both
//! go into the stream URL. Frames are typed objects; the ticker topic
//! carries best bid and ask as string fields. The venue also wants
//! periodic ping messages.
use crate::exchanges::{
    build_quote, opt_get, opt_str, scaled_elem, spec_opt_get, spec_opt_str,
    spec_parse_frame, spec_quote, spec_scaled_elem,
};
use crate::json::JsonValue;
use crate::models::{Config, ControlKind, OutcomeView, ParseOutcome, Venue};
use crate::num::spec_digits;
use crate::translate::{spec_translate, translate};
use vstd::prelude::*;

verus! {

/// A ticker data frame: a `topic` starting with `/market/ticker`.
pub open spec fn spec_is_kucoin_ticker(j: JsonValue) -> bool {
    match spec_opt_str(j.spec_get("topic"@)) {
        Some(t) => crate::strutil::spec_starts_with(t, "/market/ticker"@),
        None => false,
    }
}

/// Welcome, subscribe acknowledgment and pong frames, all absorbed. A
/// pong counts as control only where the frame does not also claim a
/// ticker topic, which the adapter reads as data first.
pub open spec fn spec_is_kucoin_control(j: JsonValue) -> bool {
    let ty = spec_opt_str(j.spec_get("type"@));
    ty == Some("welcome"@) || ty == Some("ack"@) || (ty == Some("pong"@) && !spec_is_kucoin_ticker(
        j,
    ))
}

pub open spec fn spec_parse_kucoin(j: JsonValue, symbol: Seq<char>, now_ms: u64) -> OutcomeView {
    let ty = spec_opt_str(j.spec_get("type"@));
    if ty == Some("welcome"@) {
        OutcomeView::Control(ControlKind::Welcome)
    } else if ty == Some("ack"@) {
        OutcomeView::Control(ControlKind::SubscribeAck)
    } else if spec_is_kucoin_ticker(j) {
        match j.spec_get("data"@) {
            Some(data) => OutcomeView::Quote(
                spec_quote(
                    Venue::Kucoin,
                    symbol,
                    spec_scaled_elem(data.spec_get("bestBid"@)),
                    spec_scaled_elem(data.spec_get("bestBidSize"@)),
                    spec_scaled_elem(data.spec_get("bestAsk"@)),
                    spec_scaled_elem(data.spec_get("bestAskSize"@)),
                    now_ms,
                ),
            ),
            None => OutcomeView::Failure,
        }
    } else if ty == Some("pong"@) {
        OutcomeView::Control(ControlKind::Pong)
    } else {
        OutcomeView::Failure
    }
}

pub struct KuCoinClient {
    pub config: Config,
}

impl KuCoinClient {
    pub fn new(config: Config) -> (r: Self)
        ensures
            r.config == config,
    {
        KuCoinClient { config }
    }

    /// The venue's native form of a venue-neutral symbol.
    pub fn convert_symbol(&self, symbol: &str) -> (r: String)
        ensures
            r@ == spec_translate(Venue::Kucoin, symbol@),
    {
        translate(Venue::Kucoin, symbol)
    }

    /// The endpoint and token out of the venue's bullet response: member
    /// `endpoint` of the first instance server, and the session `token`.
    pub fn bullet_endpoint(j: &JsonValue) -> (r: Option<(String, String)>)
        ensures
            ({
                let data = j.spec_get("data"@);
                let server0 = crate::exchanges::spec_arr_elem(
                    spec_opt_get(data, "instanceServers"@),
                    0,
                );
                let ep = spec_opt_str(spec_opt_get(server0, "endpoint"@));
                let tok = spec_opt_str(spec_opt_get(data, "token"@));
                match r {
                    Some(pair) => ep == Some(pair.0@) && tok == Some(pair.1@),
                    None => ep is None || tok is None,
                }
            }),
    {
        let data = j.get("data");
        let server0 = crate::exchanges::arr_elem(opt_get(data, "instanceServers"), 0);
        let ep = opt_str(opt_get(server0, "endpoint"));
        let tok = opt_str(opt_get(data, "token"));
        match (ep, tok) {
            (Some(e), Some(t)) => Some((e.to_owned(), t.to_owned())),
            _ => None,
        }
    }

    /// The stream URL: the issued endpoint carrying the token and a
    /// connection identifier.
    pub fn ws_url(endpoint: &str, token: &str, connect_id: u64) -> (r: String)
        ensures
            r@ == endpoint@ + "?token="@ + token@ + "&connectId="@ + spec_digits(
                connect_id as nat,
            ),
    {
        let mut m = endpoint.to_owned();
        m.append("?token=");
        m.append(token);
        m.append("&connectId=");
        let id = crate::num::fmt_u64(connect_id);
        m.append(id.as_str());
        m
    }

    /// The subscribe handshake for the ticker topic on the native symbol.
    pub fn subscribe_message(&self, connect_id: u64) -> (r: String)
        ensures
            r@ == "{\"id\":"@ + spec_digits(connect_id as nat)
                + ",\"type\":\"subscribe\",\"topic\":\"/market/ticker:"@ + spec_translate(
                Venue::Kucoin,
                self.config.symbol@,
            ) + "\",\"privateChannel\":false,\"response\":true}"@,
    {
        let native = self.convert_symbol(self.config.symbol.as_str());
        let mut m = String::from_str("{\"id\":");
        let id = crate::num::fmt_u64(connect_id);
        m.append(id.as_str());
        m.append(",\"type\":\"subscribe\",\"topic\":\"/market/ticker:");
        m.append(native.as_str());
        m.append("\",\"privateChannel\":false,\"response\":true}");
        m
    }

    /// The periodic liveness ping.
    pub fn ping_message(ping_id: u64) -> (r: String)
        ensures
            r@ == "{\"id\":"@ + spec_digits(ping_id as nat) + ",\"type\":\"ping\"}"@,
    {
        let mut m = String::from_str("{\"id\":");
        let id = crate::num::fmt_u64(ping_id);
        m.append(id.as_str());
        m.append(",\"type\":\"ping\"}");
        m
    }

    /// Classifies one parsed frame. Records keep the venue-neutral symbol
    /// the subscription was made with.
    pub fn parse_frame(&self, j: &JsonValue, now_ms: u64) -> (r: ParseOutcome)
        ensures
            r@ == spec_parse_frame(Venue::Kucoin, *j, self.config.symbol@, now_ms),
    {
        let ty = opt_str(j.get("type"));
        if let Some(t) = ty {
            if crate::strutil::str_eq(t, "welcome") {
                return ParseOutcome::Control(ControlKind::Welcome);
            }
            if crate::strutil::str_eq(t, "ack") {
                return ParseOutcome::Control(ControlKind::SubscribeAck);
            }
        }
        let is_ticker = match opt_str(j.get("topic")) {
            Some(t) => crate::strutil::starts_with(t, "/market/ticker"),
            None => false,
        };
        if is_ticker {
            return match j.get("data") {
                Some(data) => {
                    let bid = scaled_elem(data.get("bestBid"));
                    let bid_volume = scaled_elem(data.get("bestBidSize"));
                    let ask = scaled_elem(data.get("bestAsk"));
                    let ask_volume = scaled_elem(data.get("bestAskSize"));
                    ParseOutcome::Quote(
                        build_quote(
                            Venue::Kucoin,
                            self.config.symbol.clone(),
                            bid,
                            bid_volume,
                            ask,
                            ask_volume,
                            now_ms,
                        ),
                    )
                },
                None => ParseOutcome::Failure,
            };
        }
        if let Some(t) = ty {
            if crate::strutil::str_eq(t, "pong") {
                return ParseOutcome::Control(ControlKind::Pong);
            }
        }
        ParseOutcome::Failure
    }

    /// Classifies one raw text frame: malformed JSON is a parse failure.
    pub fn parse_text(&self, raw: &str, now_ms: u64) -> (r: ParseOutcome)
        ensures
            r@ == match crate::json::parsed_json(raw@) {
                Some(j) => spec_parse_frame(Venue::Kucoin, j, self.config.symbol@, now_ms),
                None => OutcomeView::Failure,
            },
    {
        match crate::json::parse_json(raw) {
            Some(j) => self.parse_frame(&j, now_ms),
            None => ParseOutcome::Failure,
        }
    }
}

} // verus!
