use soqa_sdk::dispatcher::Dispatcher;
use soqa_sdk::export::{csv_header, export_to_csv, parse_csv_row, to_csv_row};
use soqa_sdk::models::{Config, NormalizedTopOfBook, SoqaError, Venue};
use soqa_sdk::num::{fmt_scaled, fmt_u64, parse_scaled, parse_u64, SCALE};
use soqa_sdk::supervisor::{
    BackoffConfig, ConnectionState, Supervisor, SupervisorAction, SupervisorEvent,
};
use soqa_sdk::translate::translate;

fn sample_record() -> NormalizedTopOfBook {
    NormalizedTopOfBook {
        exchange: Venue::Binance,
        symbol: "BTCUSDT".to_string(),
        bid: 5_000_010_000_000,
        bid_volume: 50_000_000,
        ask: 5_000_020_000_000,
        ask_volume: 30_000_000,
        timestamp_ms: 1_700_000_000_123,
        lossy: false,
    }
}

fn policy() -> BackoffConfig {
    BackoffConfig { seed_ms: 100, cap_ms: 10_000, retry_budget: 3, stability_ms: 30_000 }
}

#[test]
fn translate_maps_and_passes_through() {
    assert_eq!(translate(Venue::Kraken, "BTCUSD"), "XBT/USD");
    assert_eq!(translate(Venue::Kraken, "ETHUSDT"), "ETH/USDT");
    assert_eq!(translate(Venue::Kucoin, "BTCUSDT"), "BTC-USDT");
    assert_eq!(translate(Venue::Okx, "ETHUSD"), "ETH-USD");
    assert_eq!(translate(Venue::Binance, "BTCUSDT"), "BTCUSDT");
    assert_eq!(translate(Venue::Bybit, "BTCUSDT"), "BTCUSDT");
    // unrecognized symbols pass through unchanged
    assert_eq!(translate(Venue::Kraken, "DOGEUSD"), "DOGEUSD");
}

#[test]
fn translate_is_deterministic_and_idempotent() {
    for venue in [Venue::Binance, Venue::Bybit, Venue::Kraken, Venue::Kucoin, Venue::Okx] {
        for symbol in ["BTCUSD", "BTCUSDT", "ETHUSD", "ETHUSDT", "XBT/USD", "BTC-USDT", "WEIRD"] {
            let once = translate(venue, symbol);
            let again = translate(venue, symbol);
            assert_eq!(once, again);
            // translating an already-native symbol does not crash and
            // changes nothing more
            let twice = translate(venue, &once);
            assert_eq!(twice, once);
        }
    }
}

#[test]
fn decimal_parsing_is_exact() {
    assert_eq!(parse_scaled("50000.1"), Some(5_000_010_000_000));
    assert_eq!(parse_scaled("0.5"), Some(50_000_000));
    assert_eq!(parse_scaled("42"), Some(42 * SCALE));
    assert_eq!(parse_scaled("0.00000001"), Some(1));
    assert_eq!(parse_scaled(""), None);
    assert_eq!(parse_scaled("."), None);
    assert_eq!(parse_scaled(".5"), None);
    assert_eq!(parse_scaled("5."), None);
    assert_eq!(parse_scaled("1.000000001"), None); // more than eight places
    assert_eq!(parse_scaled("12a.5"), None);
    assert_eq!(parse_scaled("1.2.3"), None);
    assert_eq!(parse_scaled("999999999999"), None); // overflows the scale
}

#[test]
fn integer_parsing_and_formatting_round_trip() {
    assert_eq!(parse_u64("0"), Some(0));
    assert_eq!(parse_u64("18446744073709551615"), Some(u64::MAX));
    assert_eq!(parse_u64("18446744073709551616"), None);
    assert_eq!(parse_u64(""), None);
    assert_eq!(parse_u64("12x"), None);
    for n in [0u64, 7, 10, 12345, u64::MAX] {
        assert_eq!(parse_u64(&fmt_u64(n)), Some(n));
    }
    assert_eq!(fmt_scaled(5_000_010_000_000), "50000.10000000");
    for v in [0u64, 1, 50_000_000, 5_000_010_000_000, u64::MAX] {
        assert_eq!(parse_scaled(&fmt_scaled(v)), Some(v));
    }
}

#[test]
fn csv_round_trip_reproduces_the_numeric_fields() {
    let rec = sample_record();
    let row = to_csv_row(&rec);
    let back = parse_csv_row(&row).expect("a rendered row reads back");
    assert_eq!(back.exchange, rec.exchange);
    assert_eq!(back.symbol, rec.symbol);
    assert_eq!(back.bid, rec.bid);
    assert_eq!(back.bid_volume, rec.bid_volume);
    assert_eq!(back.ask, rec.ask);
    assert_eq!(back.ask_volume, rec.ask_volume);
    assert_eq!(back.timestamp_ms, rec.timestamp_ms);
}

#[test]
fn csv_text_has_header_and_rows() {
    let rec = sample_record();
    let text = export_to_csv(&vec![rec]);
    assert_eq!(
        text,
        "exchange,symbol,bid,bid_volume,ask,ask_volume,timestamp\n\
         binance,BTCUSDT,50000.10000000,0.50000000,50000.20000000,0.30000000,1700000000123\n"
    );
    assert_eq!(csv_header(), "exchange,symbol,bid,bid_volume,ask,ask_volume,timestamp");
    assert!(parse_csv_row("exchange,symbol,bid,bid_volume,ask,ask_volume,timestamp").is_none());
    assert!(parse_csv_row("binance,BTCUSDT,1.0,2.0,3.0").is_none());
}

#[test]
fn backoff_waits_increase_to_the_cap_then_stream() {
    // three consecutive connect failures, then a success
    let mut sup = Supervisor::new(policy());
    assert_eq!(sup.step(SupervisorEvent::StartRequested, 0), SupervisorAction::OpenConnection);
    let mut waits = Vec::new();
    for jitter in [13u64, 97, 5] {
        match sup.step(SupervisorEvent::ConnectFailed, jitter) {
            SupervisorAction::WaitBackoff(w) => waits.push(w),
            other => panic!("expected a backoff wait, got {:?}", other),
        }
        assert_eq!(sup.state, ConnectionState::Backoff);
        assert_eq!(
            sup.step(SupervisorEvent::BackoffElapsed, 0),
            SupervisorAction::OpenConnection
        );
    }
    // seed 100, then min(2*100 + 13 % 100, cap) = 213, then
    // min(2*213 + 97 % 213, cap) = 523
    assert_eq!(waits, vec![100, 213, 523]);
    assert!(waits[0] < waits[1] && waits[1] < waits[2]);
    assert!(waits.iter().all(|w| *w <= policy().cap_ms));
    assert_eq!(sup.step(SupervisorEvent::ConnectSucceeded, 0), SupervisorAction::SendSubscribe);
    assert_eq!(sup.step(SupervisorEvent::SubscribeAcked, 0), SupervisorAction::NoAction);
    assert_eq!(sup.state, ConnectionState::Streaming);
}

#[test]
fn backoff_delay_is_nondecreasing_and_resets_after_stability() {
    let mut sup = Supervisor::new(policy());
    sup.step(SupervisorEvent::StartRequested, 0);
    let mut last = 0u64;
    // repeated drops: the stored delay never decreases and never passes
    // the cap
    for _ in 0..20 {
        if let SupervisorAction::WaitBackoff(w) = sup.step(SupervisorEvent::ConnectFailed, 42) {
            assert!(w >= last);
            assert!(w <= policy().cap_ms);
            last = w;
        } else {
            panic!("expected a backoff wait");
        }
        sup.step(SupervisorEvent::BackoffElapsed, 0);
    }
    assert_eq!(last, policy().cap_ms);
    // reaching a stable stream resets the delay to the seed
    sup.step(SupervisorEvent::ConnectSucceeded, 0);
    sup.step(SupervisorEvent::SubscribeAcked, 0);
    sup.step(SupervisorEvent::StabilityElapsed, 0);
    assert_eq!(sup.delay_ms, policy().seed_ms);
    sup.step(SupervisorEvent::TransportLost, 0);
    if let ConnectionState::Backoff = sup.state {
    } else {
        panic!("a transport loss re-enters backoff");
    }
}

#[test]
fn unsubscribe_in_backoff_cancels_the_wait() {
    let mut sup = Supervisor::new(policy());
    sup.step(SupervisorEvent::StartRequested, 0);
    sup.step(SupervisorEvent::ConnectFailed, 0);
    assert_eq!(sup.state, ConnectionState::Backoff);
    // the stop lands in Disconnected and only closes the transport
    assert_eq!(sup.step(SupervisorEvent::StopRequested, 0), SupervisorAction::CloseTransport);
    assert_eq!(sup.state, ConnectionState::Disconnected);
    // the pending wait is dead: its expiry triggers no connect attempt
    assert_eq!(sup.step(SupervisorEvent::BackoffElapsed, 0), SupervisorAction::NoAction);
    assert_eq!(sup.state, ConnectionState::Disconnected);
}

#[test]
fn start_is_idempotent() {
    let mut sup = Supervisor::new(policy());
    assert_eq!(sup.step(SupervisorEvent::StartRequested, 0), SupervisorAction::OpenConnection);
    assert_eq!(sup.step(SupervisorEvent::StartRequested, 0), SupervisorAction::NoAction);
    assert_eq!(sup.state, ConnectionState::Connecting);
}

#[test]
fn exhausted_retry_budget_is_fatal() {
    let mut sup = Supervisor::new(BackoffConfig {
        seed_ms: 10,
        cap_ms: 1_000,
        retry_budget: 1,
        stability_ms: 1_000,
    });
    sup.step(SupervisorEvent::StartRequested, 0);
    sup.step(SupervisorEvent::ConnectSucceeded, 0);
    assert!(matches!(
        sup.step(SupervisorEvent::SubscribeTimedOut, 0),
        SupervisorAction::WaitBackoff(_)
    ));
    sup.step(SupervisorEvent::BackoffElapsed, 0);
    sup.step(SupervisorEvent::ConnectSucceeded, 0);
    assert_eq!(sup.step(SupervisorEvent::SubscribeRejected, 0), SupervisorAction::ReportFatal);
    assert_eq!(sup.state, ConnectionState::Disconnected);
    assert!(matches!(sup.fatal_error(), SoqaError::SubscriptionRejected(_)));
}

#[test]
fn dispatcher_delivers_in_order_to_every_subscriber() {
    let mut d = Dispatcher::new();
    let a = d.register(8);
    let b = d.register(8);
    assert_ne!(a, b);
    let mut first = sample_record();
    first.bid = 1;
    let mut second = sample_record();
    second.bid = 2;
    d.publish(&first);
    d.publish(&second);
    let qa = d.take(a).expect("registered handle");
    let qb = d.take(b).expect("registered handle");
    assert_eq!(qa.iter().map(|r| r.bid).collect::<Vec<_>>(), vec![1, 2]);
    assert_eq!(qb.iter().map(|r| r.bid).collect::<Vec<_>>(), vec![1, 2]);
    // taking empties the queue
    assert_eq!(d.take(a).expect("still registered").len(), 0);
}

#[test]
fn dispatcher_drops_oldest_when_a_queue_is_full() {
    let mut d = Dispatcher::new();
    let h = d.register(1);
    let mut first = sample_record();
    first.bid = 1;
    let mut second = sample_record();
    second.bid = 2;
    d.publish(&first);
    d.publish(&second);
    assert_eq!(d.subs[0].dropped, 1);
    let q = d.take(h).expect("registered handle");
    assert_eq!(q.len(), 1);
    assert_eq!(q[0].bid, 2);
}

#[test]
fn dispatcher_unregister_stops_delivery() {
    let mut d = Dispatcher::new();
    let h = d.register(4);
    assert!(d.unregister(h));
    assert!(!d.unregister(h));
    assert!(d.take(h).is_none());
}

#[test]
fn unknown_venue_is_rejected_up_front() {
    assert_eq!(Venue::from_name("binance"), Some(Venue::Binance));
    assert_eq!(Venue::from_name("okx"), Some(Venue::Okx));
    assert_eq!(Venue::from_name("nasdaq"), None);
    for v in [Venue::Binance, Venue::Bybit, Venue::Kraken, Venue::Kucoin, Venue::Okx] {
        assert_eq!(Venue::from_name(v.name()), Some(v));
    }
}

#[test]
fn subscription_config_rejects_unknown_venues() {
    match Config::for_subscription("nasdaq", "BTCUSD") {
        Err(SoqaError::UnsupportedVenue(m)) => assert_eq!(m, "nasdaq"),
        other => panic!("expected an unsupported-venue rejection, got {:?}", other),
    }
    let (venue, config) = Config::for_subscription("kraken", "BTCUSD").expect("a configured venue");
    assert_eq!(venue, Venue::Kraken);
    assert_eq!(config.exchange, "kraken");
    assert_eq!(config.symbol, "BTCUSD");
}

#[test]
fn config_keeps_its_inputs_and_reserves_credentials() {
    let c = Config::new("kraken", "BTCUSD");
    assert_eq!(c.exchange, "kraken");
    assert_eq!(c.symbol, "BTCUSD");
    assert!(c.api_key.is_none());
    assert!(c.api_secret.is_none());
}
