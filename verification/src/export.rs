//! CSV serialization of normalized records, and its inverse.
//!
//! A row holds `exchange,symbol,bid,bid_volume,ask,ask_volume,timestamp`,
//! with the four quote fields in the fixed-point decimal notation of
//! `num`. Writing the text to a file is the caller's business; this
//! module owns the format, and proves that reading a row back reproduces
//! the record it came from.
use crate::models::{NormalizedTopOfBook, TobView, Venue};
use crate::num::{
    all_digits, char_index_of, fmt_scaled, fmt_u64, is_digit, lemma_char_index_of,
    lemma_char_index_of_first, lemma_digits_of_val, lemma_parse_fmt_scaled, parse_scaled,
    parse_u64, spec_digits, spec_digits_val, spec_fmt_scaled, spec_parse_scaled, zeros,
};
use vstd::prelude::*;

verus! {

broadcast use vstd::string::group_string_axioms;

/// A symbol that CSV can carry losslessly: free of the separator.
pub open spec fn csv_symbol_ok(s: Seq<char>) -> bool {
    forall|j: int| 0 <= j < s.len() ==> s[j] != ','
}

/// One record as one CSV row.
pub open spec fn spec_csv_row(v: TobView) -> Seq<char> {
    v.exchange.spec_name() + seq![','] + (v.symbol + seq![','] + (spec_fmt_scaled(v.bid)
        + seq![','] + (spec_fmt_scaled(v.bid_volume) + seq![','] + (spec_fmt_scaled(v.ask)
        + seq![','] + (spec_fmt_scaled(v.ask_volume) + seq![','] + spec_digits(
        v.timestamp_ms as nat,
    ))))))
}

/// What a CSV row means: seven comma-separated fields, a venue name first,
/// then the symbol, four scaled decimals, and a millisecond timestamp.
/// `None` on any other shape. A parsed record carries no substitution
/// mark: the row either reads back in full or not at all.
pub open spec fn spec_parse_csv_row(s: Seq<char>) -> Option<TobView> {
    let i1 = char_index_of(s, ',');
    if i1 < 0 {
        None
    } else {
        let f0 = s.take(i1);
        let r1 = s.skip(i1 + 1);
        let i2 = char_index_of(r1, ',');
        if i2 < 0 {
            None
        } else {
            let f1 = r1.take(i2);
            let r2 = r1.skip(i2 + 1);
            let i3 = char_index_of(r2, ',');
            if i3 < 0 {
                None
            } else {
                let f2 = r2.take(i3);
                let r3 = r2.skip(i3 + 1);
                let i4 = char_index_of(r3, ',');
                if i4 < 0 {
                    None
                } else {
                    let f3 = r3.take(i4);
                    let r4 = r3.skip(i4 + 1);
                    let i5 = char_index_of(r4, ',');
                    if i5 < 0 {
                        None
                    } else {
                        let f4 = r4.take(i5);
                        let r5 = r4.skip(i5 + 1);
                        let i6 = char_index_of(r5, ',');
                        if i6 < 0 {
                            None
                        } else {
                            let f5 = r5.take(i6);
                            let f6 = r5.skip(i6 + 1);
                            if char_index_of(f6, ',') >= 0 {
                                None
                            } else {
                                spec_row_of_fields(f0, f1, f2, f3, f4, f5, f6)
                            }
                        }
                    }
                }
            }
        }
    }
}

/// The record behind seven parsed fields, when every field reads back.
pub open spec fn spec_row_of_fields(
    f0: Seq<char>,
    f1: Seq<char>,
    f2: Seq<char>,
    f3: Seq<char>,
    f4: Seq<char>,
    f5: Seq<char>,
    f6: Seq<char>,
) -> Option<TobView> {
    match (
        Venue::spec_from_name(f0),
        spec_parse_scaled(f2),
        spec_parse_scaled(f3),
        spec_parse_scaled(f4),
        spec_parse_scaled(f5),
    ) {
        (Some(venue), Some(bid), Some(bid_volume), Some(ask), Some(ask_volume)) => {
            if f6.len() > 0 && all_digits(f6) && spec_digits_val(f6) <= u64::MAX {
                Some(
                    TobView {
                        exchange: venue,
                        symbol: f1,
                        bid: bid,
                        bid_volume: bid_volume,
                        ask: ask,
                        ask_volume: ask_volume,
                        timestamp_ms: spec_digits_val(f6) as u64,
                        lossy: false,
                    },
                )
            } else {
                None
            }
        },
        _ => None,
    }
}

/// Renders one record as its CSV row.
pub fn to_csv_row(rec: &NormalizedTopOfBook) -> (r: String)
    ensures
        r@ == spec_csv_row(rec@),
{
    let mut out = rec.exchange.name().to_owned();
    out.append(",");
    out.append(rec.symbol.as_str());
    out.append(",");
    let bid = fmt_scaled(rec.bid);
    out.append(bid.as_str());
    out.append(",");
    let bid_volume = fmt_scaled(rec.bid_volume);
    out.append(bid_volume.as_str());
    out.append(",");
    let ask = fmt_scaled(rec.ask);
    out.append(ask.as_str());
    out.append(",");
    let ask_volume = fmt_scaled(rec.ask_volume);
    out.append(ask_volume.as_str());
    out.append(",");
    let ts = fmt_u64(rec.timestamp_ms);
    out.append(ts.as_str());
    proof {
        reveal_strlit(",");
        assert(","@ =~= seq![',']);
        assert(out@ =~= spec_csv_row(rec@));
    }
    out
}

/// The first field of `s` up to a comma, and everything after it.
fn split_comma<'a>(s: &'a str) -> (r: Option<(&'a str, &'a str)>)
    ensures
        match r {
            Some(pair) => char_index_of(s@, ',') >= 0 && pair.0@ == s@.take(
                char_index_of(s@, ','),
            ) && pair.1@ == s@.skip(char_index_of(s@, ',') + 1),
            None => char_index_of(s@, ',') == -1,
        },
{
    let len = s.unicode_len();
    match crate::strutil::find_char(s, 0, ',') {
        Some(i) => {
            proof {
                lemma_char_index_of_first(s@, ',', i as int);
            }
            let f = s.substring_char(0, i);
            let rest = s.substring_char(i + 1, len);
            proof {
                assert(f@ =~= s@.take(i as int));
                assert(rest@ =~= s@.skip(i + 1));
            }
            Some((f, rest))
        },
        None => {
            proof {
                lemma_char_index_of(s@, ',');
                if char_index_of(s@, ',') != -1 {
                    assert(s@[char_index_of(s@, ',')] == ',');
                }
            }
            None
        },
    }
}

/// Reads one CSV row back into a record; `None` exactly where
/// `spec_parse_csv_row` says so.
pub fn parse_csv_row(s: &str) -> (r: Option<NormalizedTopOfBook>)
    ensures
        match r {
            Some(rec) => spec_parse_csv_row(s@) == Some(rec@),
            None => spec_parse_csv_row(s@) is None,
        },
{
    let (f0, r1) = match split_comma(s) {
        Some(pair) => pair,
        None => {
            return None;
        },
    };
    let (f1, r2) = match split_comma(r1) {
        Some(pair) => pair,
        None => {
            return None;
        },
    };
    let (f2, r3) = match split_comma(r2) {
        Some(pair) => pair,
        None => {
            return None;
        },
    };
    let (f3, r4) = match split_comma(r3) {
        Some(pair) => pair,
        None => {
            return None;
        },
    };
    let (f4, r5) = match split_comma(r4) {
        Some(pair) => pair,
        None => {
            return None;
        },
    };
    let (f5, f6) = match split_comma(r5) {
        Some(pair) => pair,
        None => {
            return None;
        },
    };
    if split_comma(f6).is_some() {
        return None;
    }
    let venue = match Venue::from_name(f0) {
        Some(v) => v,
        None => {
            return None;
        },
    };
    let bid = match parse_scaled(f2) {
        Some(x) => x,
        None => {
            return None;
        },
    };
    let bid_volume = match parse_scaled(f3) {
        Some(x) => x,
        None => {
            return None;
        },
    };
    let ask = match parse_scaled(f4) {
        Some(x) => x,
        None => {
            return None;
        },
    };
    let ask_volume = match parse_scaled(f5) {
        Some(x) => x,
        None => {
            return None;
        },
    };
    let timestamp_ms = match parse_u64(f6) {
        Some(x) => x,
        None => {
            return None;
        },
    };
    Some(
        NormalizedTopOfBook {
            exchange: venue,
            symbol: f1.to_owned(),
            bid,
            bid_volume,
            ask,
            ask_volume,
            timestamp_ms,
            lossy: false,
        },
    )
}

/// No comma hides among digits.
proof fn lemma_digits_no_comma(n: nat)
    ensures
        forall|j: int| 0 <= j < spec_digits(n).len() ==> spec_digits(n)[j] != ',',
{
    lemma_digits_of_val(n);
    assert forall|j: int| 0 <= j < spec_digits(n).len() implies spec_digits(n)[j] != ',' by {
        assert(is_digit(spec_digits(n)[j]));
    }
}

/// Nor anywhere in a rendered scaled decimal.
proof fn lemma_fmt_scaled_no_comma(x: u64)
    ensures
        forall|j: int| 0 <= j < spec_fmt_scaled(x).len() ==> spec_fmt_scaled(x)[j] != ',',
{
    lemma_digits_no_comma((x / crate::num::SCALE) as nat);
    lemma_digits_no_comma((x % crate::num::SCALE) as nat);
    let whole = spec_digits((x / crate::num::SCALE) as nat);
    let frac = spec_digits((x % crate::num::SCALE) as nat);
    let k = (8 - frac.len()) as nat;
    assert forall|j: int| 0 <= j < spec_fmt_scaled(x).len() implies spec_fmt_scaled(x)[j] != ','
        by {
        let s = spec_fmt_scaled(x);
        if j < whole.len() {
            assert(s[j] == whole[j]);
        } else if j == whole.len() {
            assert(s[j] == '.');
        } else if j < whole.len() + 1 + k {
            assert(s[j] == zeros(k)[j - whole.len() - 1]);
            assert(zeros(k)[j - whole.len() - 1] == '0');
        } else {
            assert(s[j] == frac[j - whole.len() - 1 - k]);
        }
    }
}

/// Venue names never hold the separator, and reading a name back gives
/// the venue it names.
proof fn lemma_venue_names(venue: Venue)
    ensures
        forall|j: int| 0 <= j < venue.spec_name().len() ==> venue.spec_name()[j] != ',',
        Venue::spec_from_name(venue.spec_name()) == Some(venue),
{
    reveal_strlit("binance");
    reveal_strlit("bybit");
    reveal_strlit("kraken");
    reveal_strlit("kucoin");
    reveal_strlit("okx");
    assert("binance"@.len() == 7 && "bybit"@.len() == 5 && "kraken"@.len() == 6 && "kucoin"@.len()
        == 6 && "okx"@.len() == 3);
    assert("kraken"@[1] == 'r' && "kucoin"@[1] == 'u');
}

/// Splitting at the first comma of `field + ',' + rest` peels exactly
/// `field` when the field itself holds none.
proof fn lemma_split_concat(f: Seq<char>, rest: Seq<char>)
    requires
        forall|j: int| 0 <= j < f.len() ==> f[j] != ',',
    ensures
        char_index_of(f + seq![','] + rest, ',') == f.len(),
        (f + seq![','] + rest).take(f.len() as int) == f,
        (f + seq![','] + rest).skip(f.len() as int + 1) == rest,
{
    let s = f + seq![','] + rest;
    assert(s[f.len() as int] == ',');
    assert(forall|j: int| 0 <= j < f.len() ==> s[j] == f[j]);
    lemma_char_index_of_first(s, ',', f.len() as int);
    assert(s.take(f.len() as int) =~= f);
    assert(s.skip(f.len() as int + 1) =~= rest);
}

/// A comma-free text has no first comma.
proof fn lemma_no_comma_index(s: Seq<char>)
    requires
        forall|j: int| 0 <= j < s.len() ==> s[j] != ',',
    ensures
        char_index_of(s, ',') == -1,
{
    lemma_char_index_of(s, ',');
    if char_index_of(s, ',') != -1 {
        assert(s[char_index_of(s, ',')] == ',');
    }
}

/// Round trip: a record whose symbol is free of the separator reads back
/// from its own CSV row with the venue, the symbol and all five numeric
/// fields intact; only the substitution mark is not carried by the
/// format.
pub proof fn lemma_csv_round_trip(v: TobView)
    requires
        csv_symbol_ok(v.symbol),
    ensures
        spec_parse_csv_row(spec_csv_row(v)) == Some(TobView { lossy: false, ..v }),
{
    let f0 = v.exchange.spec_name();
    let f1 = v.symbol;
    let f2 = spec_fmt_scaled(v.bid);
    let f3 = spec_fmt_scaled(v.bid_volume);
    let f4 = spec_fmt_scaled(v.ask);
    let f5 = spec_fmt_scaled(v.ask_volume);
    let f6 = spec_digits(v.timestamp_ms as nat);
    lemma_venue_names(v.exchange);
    lemma_fmt_scaled_no_comma(v.bid);
    lemma_fmt_scaled_no_comma(v.bid_volume);
    lemma_fmt_scaled_no_comma(v.ask);
    lemma_fmt_scaled_no_comma(v.ask_volume);
    lemma_digits_no_comma(v.timestamp_ms as nat);
    let t6 = f6;
    let t5 = f5 + seq![','] + t6;
    let t4 = f4 + seq![','] + t5;
    let t3 = f3 + seq![','] + t4;
    let t2 = f2 + seq![','] + t3;
    let t1 = f1 + seq![','] + t2;
    let s = f0 + seq![','] + t1;
    assert(spec_csv_row(v) == s);
    lemma_split_concat(f0, t1);
    lemma_split_concat(f1, t2);
    lemma_split_concat(f2, t3);
    lemma_split_concat(f3, t4);
    lemma_split_concat(f4, t5);
    lemma_split_concat(f5, t6);
    lemma_no_comma_index(f6);
    lemma_parse_fmt_scaled(v.bid);
    lemma_parse_fmt_scaled(v.bid_volume);
    lemma_parse_fmt_scaled(v.ask);
    lemma_parse_fmt_scaled(v.ask_volume);
    lemma_digits_of_val(v.timestamp_ms as nat);
    assert(spec_parse_csv_row(s) == spec_row_of_fields(f0, f1, f2, f3, f4, f5, f6));
    assert(spec_row_of_fields(f0, f1, f2, f3, f4, f5, f6) == Some(TobView { lossy: false, ..v }));
}

/// The header row naming the seven columns.
pub fn csv_header() -> (r: String)
    ensures
        r@ == "exchange,symbol,bid,bid_volume,ask,ask_volume,timestamp"@,
{
    String::from_str("exchange,symbol,bid,bid_volume,ask,ask_volume,timestamp")
}

/// The rows of a bounded record sequence, each closed by a newline.
pub open spec fn spec_csv_rows(rows: Seq<TobView>) -> Seq<char>
    decreases rows.len(),
{
    if rows.len() == 0 {
        Seq::empty()
    } else {
        spec_csv_row(rows[0]) + seq!['\n'] + spec_csv_rows(rows.drop_first())
    }
}

/// Serializes a bounded sequence of records: the header line, then one
/// row per record in order. The caller writes the text wherever it wants.
#[verifier::loop_isolation(false)]
pub fn export_to_csv(data: &Vec<NormalizedTopOfBook>) -> (r: String)
    ensures
        r@ == "exchange,symbol,bid,bid_volume,ask,ask_volume,timestamp"@ + seq!['\n']
            + spec_csv_rows(data@.map_values(|rec: NormalizedTopOfBook| rec@)),
{
    let mut out = csv_header();
    out.append("\n");
    proof {
        reveal_strlit("\n");
        assert("\n"@ =~= seq!['\n']);
    }
    let ghost views = data@.map_values(|rec: NormalizedTopOfBook| rec@);
    let n = data.len();
    let mut i: usize = 0;
    while i < n
        invariant
            i <= n,
            out@ =~= "exchange,symbol,bid,bid_volume,ask,ask_volume,timestamp"@ + seq!['\n']
                + spec_csv_rows(views.take(i as int)),
        decreases n - i,
    {
        let row = to_csv_row(&data[i]);
        out.append(row.as_str());
        out.append("\n");
        proof {
            assert(views.take(i + 1).drop_last() =~= views.take(i as int));
            lemma_csv_rows_snoc(views, i as int);
        }
        i += 1;
    }
    proof {
        assert(views.take(n as int) =~= views);
    }
    out
}

/// Appending one more record extends the rows by exactly its line.
proof fn lemma_csv_rows_snoc(views: Seq<TobView>, i: int)
    requires
        0 <= i < views.len(),
    ensures
        spec_csv_rows(views.take(i + 1)) == spec_csv_rows(views.take(i)) + spec_csv_row(views[i])
            + seq!['\n'],
    decreases i,
{
    if i == 0 {
        assert(views.take(1) =~= seq![views[0]]);
        assert(views.take(1).drop_first() =~= Seq::<TobView>::empty());
        assert(views.take(0) =~= Seq::<TobView>::empty());
        assert(spec_csv_rows(views.take(1)) =~= spec_csv_row(views[0]) + seq!['\n']);
        assert(spec_csv_rows(views.take(i + 1)) =~= spec_csv_rows(views.take(i)) + spec_csv_row(
            views[i],
        ) + seq!['\n']);
    } else {
        lemma_csv_rows_snoc(views.drop_first(), i - 1);
        assert(views.take(i + 1)[0] == views[0]);
        assert(views.take(i + 1).drop_first() =~= views.drop_first().take(i));
        assert(views.take(i).drop_first() =~= views.drop_first().take(i - 1));
        assert(views.drop_first()[i - 1] == views[i]);
        assert(spec_csv_rows(views.take(i + 1)) =~= spec_csv_row(views[0]) + seq!['\n']
            + spec_csv_rows(views.drop_first().take(i)));
        assert(spec_csv_rows(views.take(i)) =~= spec_csv_row(views[0]) + seq!['\n']
            + spec_csv_rows(views.drop_first().take(i - 1)));
        assert(spec_csv_rows(views.take(i + 1)) =~= spec_csv_rows(views.take(i)) + spec_csv_row(
            views[i],
        ) + seq!['\n']);
    }
}

} // verus!
