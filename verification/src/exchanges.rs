//! The exchange adapters: one client per venue, all built on a shared
//! frame-dispatch skeleton.
//!
//! Every adapter classifies an inbound JSON frame as exactly one of: a
//! quote update, a protocol-control frame (absorbed, no record), a
//! venue-reported error, a recognized data frame with no usable quote, or
//! a parse failure. Numeric fields that are absent or malformed are
//! substituted with zero and the record is marked lossy, so one garbled
//! field never drops an otherwise-usable update.
pub mod binance;
pub mod bybit;
pub mod kraken;
pub mod kucoin;
pub mod okx;

use crate::json::JsonValue;
use crate::models::{ControlKind, NormalizedTopOfBook, OutcomeView, TobView, Venue};
use crate::num::spec_parse_scaled;
use vstd::prelude::*;

verus! {

/// A borrowed optional value, as its mathematical content.
pub open spec fn deref_opt(v: Option<&JsonValue>) -> Option<JsonValue> {
    match v {
        Some(x) => Some(*x),
        None => None,
    }
}

/// The characters behind an optional JSON value, when it is a string.
pub open spec fn spec_opt_str(v: Option<JsonValue>) -> Option<Seq<char>> {
    match v {
        Some(x) => x.spec_str(),
        None => None,
    }
}

/// Member `key` of an optional JSON value, when it is an object.
pub open spec fn spec_opt_get(v: Option<JsonValue>, key: Seq<char>) -> Option<JsonValue> {
    match v {
        Some(x) => x.spec_get(key),
        None => None,
    }
}

/// The boolean behind an optional JSON value.
pub open spec fn spec_opt_bool(v: Option<JsonValue>) -> Option<bool> {
    match v {
        Some(x) => x.spec_bool(),
        None => None,
    }
}

/// The items behind an optional JSON value, when it is an array.
pub open spec fn spec_opt_arr(v: Option<JsonValue>) -> Option<Seq<JsonValue>> {
    match v {
        Some(x) => x.spec_arr(),
        None => None,
    }
}

/// A string option, with the empty text for `None`.
pub open spec fn or_empty(v: Option<Seq<char>>) -> Seq<char> {
    match v {
        Some(s) => s,
        None => Seq::empty(),
    }
}

/// Exec mirror of `spec_opt_get`.
pub fn opt_get<'a>(v: Option<&'a JsonValue>, key: &str) -> (r: Option<&'a JsonValue>)
    ensures
        match r {
            Some(x) => spec_opt_get(deref_opt(v), key@) == Some(*x),
            None => spec_opt_get(deref_opt(v), key@) is None,
        },
{
    match v {
        Some(x) => x.get(key),
        None => None,
    }
}

/// Exec mirror of `spec_opt_bool`.
pub fn opt_bool(v: Option<&JsonValue>) -> (r: Option<bool>)
    ensures
        r == spec_opt_bool(deref_opt(v)),
{
    match v {
        Some(x) => x.as_bool(),
        None => None,
    }
}

/// Element `i` of an optional JSON value, when it is an array that long.
pub open spec fn spec_arr_elem(v: Option<JsonValue>, i: int) -> Option<JsonValue> {
    match v {
        Some(x) => match x.spec_arr() {
            Some(items) => if 0 <= i < items.len() {
                Some(items[i])
            } else {
                None
            },
            None => None,
        },
        None => None,
    }
}

/// A numeric field with the substitution policy: the scaled value and
/// `true` when the field was a string holding a well-formed decimal, else
/// zero and `false`.
pub open spec fn spec_scaled_elem(v: Option<JsonValue>) -> (u64, bool) {
    match spec_opt_str(v) {
        Some(s) => match spec_parse_scaled(s) {
            Some(x) => (x, true),
            None => (0u64, false),
        },
        None => (0u64, false),
    }
}

/// Exec mirror of `spec_opt_str`.
pub fn opt_str<'a>(v: Option<&'a JsonValue>) -> (r: Option<&'a str>)
    ensures
        match r {
            Some(s) => spec_opt_str(deref_opt(v)) == Some(s@),
            None => spec_opt_str(deref_opt(v)) is None,
        },
{
    match v {
        Some(x) => x.as_str(),
        None => None,
    }
}

/// Exec mirror of `spec_arr_elem`.
pub fn arr_elem<'a>(v: Option<&'a JsonValue>, i: usize) -> (r: Option<&'a JsonValue>)
    ensures
        match r {
            Some(x) => spec_arr_elem(deref_opt(v), i as int) == Some(*x),
            None => spec_arr_elem(deref_opt(v), i as int) is None,
        },
{
    match v {
        Some(x) => match x.as_arr() {
            Some(items) => if i < items.len() {
                Some(&items[i])
            } else {
                None
            },
            None => None,
        },
        None => None,
    }
}

/// Exec mirror of `spec_scaled_elem`.
pub fn scaled_elem(v: Option<&JsonValue>) -> (r: (u64, bool))
    ensures
        r == spec_scaled_elem(deref_opt(v)),
{
    match opt_str(v) {
        Some(s) => match crate::num::parse_scaled(s) {
            Some(x) => (x, true),
            None => (0u64, false),
        },
        None => (0u64, false),
    }
}

/// The record built from four parsed fields; lossy when any field was
/// substituted.
pub open spec fn spec_quote(
    venue: Venue,
    symbol: Seq<char>,
    bid: (u64, bool),
    bid_volume: (u64, bool),
    ask: (u64, bool),
    ask_volume: (u64, bool),
    now_ms: u64,
) -> TobView {
    TobView {
        exchange: venue,
        symbol: symbol,
        bid: bid.0,
        bid_volume: bid_volume.0,
        ask: ask.0,
        ask_volume: ask_volume.0,
        timestamp_ms: now_ms,
        lossy: !(bid.1 && bid_volume.1 && ask.1 && ask_volume.1),
    }
}

/// Exec mirror of `spec_quote`.
pub fn build_quote(
    venue: Venue,
    symbol: String,
    bid: (u64, bool),
    bid_volume: (u64, bool),
    ask: (u64, bool),
    ask_volume: (u64, bool),
    now_ms: u64,
) -> (r: NormalizedTopOfBook)
    ensures
        r@ == spec_quote(venue, symbol@, bid, bid_volume, ask, ask_volume, now_ms),
{
    NormalizedTopOfBook {
        exchange: venue,
        symbol: symbol,
        bid: bid.0,
        bid_volume: bid_volume.0,
        ask: ask.0,
        ask_volume: ask_volume.0,
        timestamp_ms: now_ms,
        lossy: !(bid.1 && bid_volume.1 && ask.1 && ask_volume.1),
    }
}

/// What one frame means to one venue's adapter: the uniform contract all
/// five clients implement.
pub open spec fn spec_parse_frame(venue: Venue, j: JsonValue, symbol: Seq<char>, now_ms: u64) -> OutcomeView {
    match venue {
        Venue::Binance => binance::spec_parse_binance(j, now_ms),
        Venue::Bybit => bybit::spec_parse_bybit(j, symbol, now_ms),
        Venue::Kraken => kraken::spec_parse_kraken(j, symbol, now_ms),
        Venue::Kucoin => kucoin::spec_parse_kucoin(j, symbol, now_ms),
        Venue::Okx => okx::spec_parse_okx(j, symbol, now_ms),
    }
}

/// Frames each venue's adapter recognizes as protocol control traffic.
pub open spec fn spec_is_control_frame(venue: Venue, j: JsonValue) -> bool {
    match venue {
        Venue::Binance => binance::spec_is_binance_control(j),
        Venue::Bybit => bybit::spec_is_bybit_control(j),
        Venue::Kraken => kraken::spec_is_kraken_control(j),
        Venue::Kucoin => kucoin::spec_is_kucoin_control(j),
        Venue::Okx => okx::spec_is_okx_control(j),
    }
}

/// No normalized record is ever emitted for a recognized control frame —
/// heartbeats, acknowledgments, pongs and welcomes are absorbed, whatever
/// the symbol and the clock say.
pub proof fn lemma_control_frames_emit_no_record(
    venue: Venue,
    j: JsonValue,
    symbol: Seq<char>,
    now_ms: u64,
)
    requires
        spec_is_control_frame(venue, j),
    ensures
        spec_parse_frame(venue, j, symbol, now_ms) matches OutcomeView::Control(_),
{
}

} // verus!
