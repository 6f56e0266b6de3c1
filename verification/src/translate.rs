//! Venue-neutral to venue-native symbol translation.
//!
//! Translation is a pure function driven by one mapping table per venue:
//! adding a symbol or a venue is a data change. Unrecognized symbols pass
//! through unchanged — the venue itself rejects an invalid symbol at
//! subscribe time, surfaced as `SubscriptionRejected`.
use crate::models::Venue;
use vstd::prelude::*;

verus! {

broadcast use vstd::string::group_string_axioms;

/// The native form of a venue-neutral symbol.
pub open spec fn spec_translate(venue: Venue, s: Seq<char>) -> Seq<char> {
    match venue {
        Venue::Binance => s,
        Venue::Bybit => s,
        Venue::Kraken => {
            if s == "BTCUSD"@ {
                "XBT/USD"@
            } else if s == "BTCUSDT"@ {
                "XBT/USDT"@
            } else if s == "ETHUSD"@ {
                "ETH/USD"@
            } else if s == "ETHUSDT"@ {
                "ETH/USDT"@
            } else {
                s
            }
        },
        Venue::Kucoin | Venue::Okx => {
            if s == "BTCUSD"@ {
                "BTC-USD"@
            } else if s == "BTCUSDT"@ {
                "BTC-USDT"@
            } else if s == "ETHUSD"@ {
                "ETH-USD"@
            } else if s == "ETHUSDT"@ {
                "ETH-USDT"@
            } else {
                s
            }
        },
    }
}

/// Ground facts about the table literals: the four venue-neutral keys are
/// pairwise distinct, and no native form equals any key.
proof fn lemma_table_literals()
    ensures
        "BTCUSD"@ != "BTCUSDT"@ && "BTCUSD"@ != "ETHUSD"@ && "BTCUSD"@ != "ETHUSDT"@,
        "BTCUSDT"@ != "ETHUSD"@ && "BTCUSDT"@ != "ETHUSDT"@ && "ETHUSD"@ != "ETHUSDT"@,
        "XBT/USD"@ != "BTCUSD"@ && "XBT/USD"@ != "BTCUSDT"@ && "XBT/USD"@ != "ETHUSD"@
            && "XBT/USD"@ != "ETHUSDT"@,
        "XBT/USDT"@ != "BTCUSD"@ && "XBT/USDT"@ != "BTCUSDT"@ && "XBT/USDT"@ != "ETHUSD"@
            && "XBT/USDT"@ != "ETHUSDT"@,
        "ETH/USD"@ != "BTCUSD"@ && "ETH/USD"@ != "BTCUSDT"@ && "ETH/USD"@ != "ETHUSD"@
            && "ETH/USD"@ != "ETHUSDT"@,
        "ETH/USDT"@ != "BTCUSD"@ && "ETH/USDT"@ != "BTCUSDT"@ && "ETH/USDT"@ != "ETHUSD"@
            && "ETH/USDT"@ != "ETHUSDT"@,
        "BTC-USD"@ != "BTCUSD"@ && "BTC-USD"@ != "BTCUSDT"@ && "BTC-USD"@ != "ETHUSD"@
            && "BTC-USD"@ != "ETHUSDT"@,
        "BTC-USDT"@ != "BTCUSD"@ && "BTC-USDT"@ != "BTCUSDT"@ && "BTC-USDT"@ != "ETHUSD"@
            && "BTC-USDT"@ != "ETHUSDT"@,
        "ETH-USD"@ != "BTCUSD"@ && "ETH-USD"@ != "BTCUSDT"@ && "ETH-USD"@ != "ETHUSD"@
            && "ETH-USD"@ != "ETHUSDT"@,
        "ETH-USDT"@ != "BTCUSD"@ && "ETH-USDT"@ != "BTCUSDT"@ && "ETH-USDT"@ != "ETHUSD"@
            && "ETH-USDT"@ != "ETHUSDT"@,
{
    reveal_strlit("BTCUSD");
    reveal_strlit("BTCUSDT");
    reveal_strlit("ETHUSD");
    reveal_strlit("ETHUSDT");
    reveal_strlit("XBT/USD");
    reveal_strlit("XBT/USDT");
    reveal_strlit("ETH/USD");
    reveal_strlit("ETH/USDT");
    reveal_strlit("BTC-USD");
    reveal_strlit("BTC-USDT");
    reveal_strlit("ETH-USD");
    reveal_strlit("ETH-USDT");
    assert("BTCUSD"@.len() == 6 && "BTCUSDT"@.len() == 7);
    assert("ETHUSD"@.len() == 6 && "ETHUSDT"@.len() == 7);
    assert("XBT/USD"@.len() == 7 && "XBT/USDT"@.len() == 8);
    assert("ETH/USD"@.len() == 7 && "ETH/USDT"@.len() == 8);
    assert("BTC-USD"@.len() == 7 && "BTC-USDT"@.len() == 8);
    assert("ETH-USD"@.len() == 7 && "ETH-USDT"@.len() == 8);
    assert("BTCUSD"@[0] == 'B' && "BTCUSDT"@[0] == 'B' && "ETHUSD"@[0] == 'E' && "ETHUSDT"@[0]
        == 'E');
    assert("XBT/USD"@[0] == 'X' && "ETH/USD"@[0] == 'E' && "BTC-USD"@[0] == 'B' && "ETH-USD"@[0]
        == 'E');
    assert("BTCUSDT"@[3] == 'U' && "ETHUSDT"@[3] == 'U');
    assert("ETH/USD"@[3] == '/' && "BTC-USD"@[3] == '-' && "ETH-USD"@[3] == '-');
}

/// The venue's mapping table: pairs of a venue-neutral symbol and its
/// native form. Venues that take the neutral form as-is map nothing.
pub fn venue_table(venue: Venue) -> (t: Vec<(&'static str, &'static str)>)
    ensures
        forall|i: int| 0 <= i < t@.len() ==> #[trigger] t@[i].1@ == spec_translate(
            venue,
            t@[i].0@,
        ),
        matches!(venue, Venue::Binance | Venue::Bybit) ==> t@.len() == 0,
        !matches!(venue, Venue::Binance | Venue::Bybit) ==> t@.len() == 4 && t@[0].0@
            == "BTCUSD"@ && t@[1].0@ == "BTCUSDT"@ && t@[2].0@ == "ETHUSD"@ && t@[3].0@
            == "ETHUSDT"@,
{
    let mut t: Vec<(&'static str, &'static str)> = Vec::new();
    match venue {
        Venue::Binance | Venue::Bybit => {},
        Venue::Kraken => {
            t.push(("BTCUSD", "XBT/USD"));
            t.push(("BTCUSDT", "XBT/USDT"));
            t.push(("ETHUSD", "ETH/USD"));
            t.push(("ETHUSDT", "ETH/USDT"));
        },
        Venue::Kucoin | Venue::Okx => {
            t.push(("BTCUSD", "BTC-USD"));
            t.push(("BTCUSDT", "BTC-USDT"));
            t.push(("ETHUSD", "ETH-USD"));
            t.push(("ETHUSDT", "ETH-USDT"));
        },
    }
    proof {
        lemma_table_literals();
    }
    t
}

/// Maps a venue-neutral symbol to the venue's native form; symbols outside
/// the table pass through unchanged.
#[verifier::loop_isolation(false)]
pub fn translate(venue: Venue, symbol: &str) -> (r: String)
    ensures
        r@ == spec_translate(venue, symbol@),
{
    let t = venue_table(venue);
    let n = t.len();
    let mut i: usize = 0;
    while i < n
        invariant
            i <= n,
            forall|j: int| 0 <= j < i ==> symbol@ != #[trigger] t@[j].0@,
        decreases n - i,
    {
        if crate::strutil::str_eq(symbol, t[i].0) {
            return t[i].1.to_owned();
        }
        i += 1;
    }
    symbol.to_owned()
}

/// Translation applied to its own output changes nothing more: the native
/// forms sit outside every mapping table, so `translate` is idempotent —
/// and, being a pure function of venue and symbol, deterministic.
pub proof fn lemma_translate_idempotent(venue: Venue, s: Seq<char>)
    ensures
        spec_translate(venue, spec_translate(venue, s)) == spec_translate(venue, s),
{
    lemma_table_literals();
}

} // verus!
