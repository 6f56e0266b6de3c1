use soqa_sdk::exchanges::binance::BinanceClient;
use soqa_sdk::exchanges::bybit::BybitClient;
use soqa_sdk::exchanges::kraken::KrakenClient;
use soqa_sdk::exchanges::kucoin::KuCoinClient;
use soqa_sdk::exchanges::okx::OkxClient;
use soqa_sdk::models::{Config, ControlKind, ParseOutcome, Venue};
use soqa_sdk::num::SCALE;

fn binance(symbol: &str) -> BinanceClient {
    BinanceClient::new(Config::new("binance", symbol))
}

fn bybit(symbol: &str) -> BybitClient {
    BybitClient::new(Config::new("bybit", symbol))
}

fn kraken(symbol: &str) -> KrakenClient {
    KrakenClient::new(Config::new("kraken", symbol))
}

fn kucoin(symbol: &str) -> KuCoinClient {
    KuCoinClient::new(Config::new("kucoin", symbol))
}

fn okx(symbol: &str) -> OkxClient {
    OkxClient::new(Config::new("okx", symbol))
}

#[test]
fn binance_sample_frame_normalizes() {
    let client = binance("BTCUSDT");
    let raw = r#"{"s":"BTCUSDT","b":"50000.1","B":"0.5","a":"50000.2","A":"0.3"}"#;
    match client.parse_text(raw, 777) {
        ParseOutcome::Quote(rec) => {
            assert_eq!(rec.exchange, Venue::Binance);
            assert_eq!(rec.exchange.name(), "binance");
            assert_eq!(rec.symbol, "BTCUSDT");
            assert_eq!(rec.bid, 50_000 * SCALE + SCALE / 10);
            assert_eq!(rec.bid_volume, SCALE / 2);
            assert_eq!(rec.ask, 50_000 * SCALE + 2 * (SCALE / 10));
            assert_eq!(rec.ask_volume, 3 * (SCALE / 10));
            assert_eq!(rec.timestamp_ms, 777);
            assert!(!rec.lossy);
        },
        other => panic!("expected a quote, got {:?}", other),
    }
}

#[test]
fn binance_subscribe_ack_is_control() {
    let client = binance("BTCUSDT");
    let out = client.parse_text(r#"{"result":null,"id":1}"#, 0);
    assert!(matches!(out, ParseOutcome::Control(ControlKind::SubscribeAck)));
}

#[test]
fn binance_error_frame_is_venue_error() {
    let client = binance("BTCUSDT");
    let out = client.parse_text(r#"{"code":-1121,"msg":"Invalid symbol."}"#, 0);
    match out {
        ParseOutcome::VenueError(m) => assert_eq!(m, "Invalid symbol."),
        other => panic!("expected a venue error, got {:?}", other),
    }
}

#[test]
fn binance_malformed_field_is_substituted_and_marked() {
    let client = binance("BTCUSDT");
    let raw = r#"{"s":"BTCUSDT","b":"not a number","B":"0.5","a":"50000.2","A":"0.3"}"#;
    match client.parse_text(raw, 0) {
        ParseOutcome::Quote(rec) => {
            assert_eq!(rec.bid, 0);
            assert!(rec.lossy);
            assert_eq!(rec.bid_volume, SCALE / 2);
        },
        other => panic!("expected a quote, got {:?}", other),
    }
}

#[test]
fn crossed_and_zero_quotes_pass_through_unchanged() {
    let client = binance("BTCUSDT");
    let raw = r#"{"s":"BTCUSDT","b":"2.0","B":"1.0","a":"1.0","A":"0.0"}"#;
    match client.parse_text(raw, 0) {
        ParseOutcome::Quote(rec) => {
            assert!(rec.bid > rec.ask);
            assert_eq!(rec.ask_volume, 0);
            assert!(!rec.lossy);
        },
        other => panic!("expected a quote, got {:?}", other),
    }
}

#[test]
fn binance_garbage_text_is_parse_failure() {
    let client = binance("BTCUSDT");
    assert!(matches!(client.parse_text("not json at all", 0), ParseOutcome::Failure));
}

#[test]
fn bybit_empty_book_emits_no_record() {
    let client = bybit("BTCUSDT");
    let raw = r#"{"topic":"orderbook.1.BTCUSDT","data":{"b":[],"a":[]}}"#;
    assert!(matches!(client.parse_text(raw, 0), ParseOutcome::Empty));
}

#[test]
fn bybit_book_frame_normalizes() {
    let client = bybit("BTCUSDT");
    let raw = r#"{"topic":"orderbook.1.BTCUSDT","data":{"b":[["50000.1","0.5"]],"a":[["50000.2","0.3"]]}}"#;
    match client.parse_text(raw, 5) {
        ParseOutcome::Quote(rec) => {
            assert_eq!(rec.exchange, Venue::Bybit);
            assert_eq!(rec.symbol, "BTCUSDT");
            assert_eq!(rec.bid, 5_000_010_000_000);
            assert_eq!(rec.bid_volume, 50_000_000);
            assert_eq!(rec.ask, 5_000_020_000_000);
            assert_eq!(rec.ask_volume, 30_000_000);
            assert!(!rec.lossy);
        },
        other => panic!("expected a quote, got {:?}", other),
    }
}

#[test]
fn bybit_success_frame_is_control() {
    let client = bybit("BTCUSDT");
    let raw = r#"{"success":true,"ret_msg":"","op":"subscribe"}"#;
    assert!(matches!(client.parse_text(raw, 0), ParseOutcome::Control(ControlKind::SubscribeAck)));
}

#[test]
fn kraken_heartbeat_is_silent() {
    let client = kraken("BTCUSD");
    let out = client.parse_text(r#"{"event":"heartbeat"}"#, 0);
    assert!(matches!(out, ParseOutcome::Control(ControlKind::Heartbeat)));
}

#[test]
fn kraken_ticker_array_normalizes() {
    let client = kraken("BTCUSD");
    let raw = r#"[42,{"b":["50000.1","0.5"],"a":["50000.2","0.3"]},"ticker","XBT/USD"]"#;
    match client.parse_text(raw, 9) {
        ParseOutcome::Quote(rec) => {
            assert_eq!(rec.exchange, Venue::Kraken);
            assert_eq!(rec.symbol, "BTCUSD");
            assert_eq!(rec.bid, 5_000_010_000_000);
            assert_eq!(rec.bid_volume, 50_000_000);
            assert_eq!(rec.ask, 5_000_020_000_000);
            assert_eq!(rec.ask_volume, 30_000_000);
        },
        other => panic!("expected a quote, got {:?}", other),
    }
}

#[test]
fn kraken_error_event_is_venue_error() {
    let client = kraken("BTCUSD");
    let raw = r#"{"event":"error","errorMessage":"Subscription depth not supported"}"#;
    match client.parse_text(raw, 0) {
        ParseOutcome::VenueError(m) => assert_eq!(m, "Subscription depth not supported"),
        other => panic!("expected a venue error, got {:?}", other),
    }
}

#[test]
fn kucoin_welcome_ack_pong_are_control() {
    let client = kucoin("BTCUSDT");
    assert!(matches!(
        client.parse_text(r#"{"id":"1","type":"welcome"}"#, 0),
        ParseOutcome::Control(ControlKind::Welcome)
    ));
    assert!(matches!(
        client.parse_text(r#"{"id":"1","type":"ack"}"#, 0),
        ParseOutcome::Control(ControlKind::SubscribeAck)
    ));
    assert!(matches!(
        client.parse_text(r#"{"id":"1","type":"pong"}"#, 0),
        ParseOutcome::Control(ControlKind::Pong)
    ));
}

#[test]
fn kucoin_ticker_frame_normalizes() {
    let client = kucoin("BTCUSDT");
    let raw = r#"{"type":"message","topic":"/market/ticker:BTC-USDT","data":{"bestBid":"50000.1","bestBidSize":"0.5","bestAsk":"50000.2","bestAskSize":"0.3"}}"#;
    match client.parse_text(raw, 3) {
        ParseOutcome::Quote(rec) => {
            assert_eq!(rec.exchange, Venue::Kucoin);
            assert_eq!(rec.symbol, "BTCUSDT");
            assert_eq!(rec.bid, 5_000_010_000_000);
            assert_eq!(rec.ask_volume, 30_000_000);
        },
        other => panic!("expected a quote, got {:?}", other),
    }
}

#[test]
fn kucoin_bullet_response_yields_endpoint_and_token() {
    let raw = r#"{"code":"200000","data":{"token":"SECRET-REDACTED","instanceServers":[{"endpoint":"wss://ws-api.kucoin.com/endpoint","pingInterval":18000}]}}"#;
    let j = soqa_sdk::json::JsonValue::parse_document(raw).expect("bullet response parses");
    let (endpoint, token) = KuCoinClient::bullet_endpoint(&j).expect("endpoint and token present");
    assert_eq!(endpoint, "wss://ws-api.kucoin.com/endpoint");
    assert_eq!(token, "SECRET-REDACTED");
    let url = KuCoinClient::ws_url(&endpoint, &token, 12345);
    assert_eq!(
        url,
        "wss://ws-api.kucoin.com/endpoint?token=SECRET-REDACTED&connectId=12345"
    );
}

#[test]
fn kucoin_messages_have_venue_shape() {
    let client = kucoin("BTCUSDT");
    assert_eq!(
        client.subscribe_message(7),
        r#"{"id":7,"type":"subscribe","topic":"/market/ticker:BTC-USDT","privateChannel":false,"response":true}"#
    );
    assert_eq!(KuCoinClient::ping_message(9), r#"{"id":9,"type":"ping"}"#);
}

#[test]
fn okx_book_frame_normalizes() {
    let client = okx("BTCUSDT");
    let raw = r#"{"arg":{"channel":"books","instId":"BTC-USDT"},"data":[{"bids":[["50000.1","0.5","0","1"]],"asks":[["50000.2","0.3","0","1"]]}]}"#;
    match client.parse_text(raw, 4) {
        ParseOutcome::Quote(rec) => {
            assert_eq!(rec.exchange, Venue::Okx);
            assert_eq!(rec.symbol, "BTCUSDT");
            assert_eq!(rec.bid, 5_000_010_000_000);
            assert_eq!(rec.bid_volume, 50_000_000);
        },
        other => panic!("expected a quote, got {:?}", other),
    }
}

#[test]
fn okx_subscribe_ack_and_empty_book() {
    let client = okx("BTCUSDT");
    assert!(matches!(
        client.parse_text(r#"{"event":"subscribe","arg":{"channel":"books"}}"#, 0),
        ParseOutcome::Control(ControlKind::SubscribeAck)
    ));
    assert!(matches!(
        client.parse_text(r#"{"data":[{"bids":[],"asks":[["1","2"]]}]}"#, 0),
        ParseOutcome::Empty
    ));
}

#[test]
fn control_frames_emit_no_record_across_venues() {
    // heartbeat / ack / pong / welcome frames, one per venue
    assert!(matches!(
        binance("BTCUSDT").parse_text(r#"{"result":null,"id":7}"#, 1),
        ParseOutcome::Control(_)
    ));
    assert!(matches!(
        bybit("BTCUSDT").parse_text(r#"{"success":true}"#, 1),
        ParseOutcome::Control(_)
    ));
    assert!(matches!(
        kraken("BTCUSD").parse_text(r#"{"event":"subscribe","status":"subscribed"}"#, 1),
        ParseOutcome::Control(_)
    ));
    assert!(matches!(
        kucoin("BTCUSDT").parse_text(r#"{"type":"pong","id":"44"}"#, 1),
        ParseOutcome::Control(_)
    ));
    assert!(matches!(
        okx("BTCUSDT").parse_text(r#"{"event":"subscribe"}"#, 1),
        ParseOutcome::Control(_)
    ));
}

#[test]
fn subscribe_messages_match_venue_protocols() {
    assert_eq!(
        bybit("BTCUSDT").subscribe_message(),
        r#"{"op":"subscribe","args":["orderbook.1.BTCUSDT"]}"#
    );
    assert_eq!(
        kraken("BTCUSD").subscribe_message(),
        r#"{"event":"subscribe","pair":["XBT/USD"],"subscription":{"name":"ticker"}}"#
    );
    assert_eq!(
        okx("BTCUSDT").subscribe_message(),
        r#"{"op":"subscribe","args":[{"channel":"books","instId":"BTC-USDT"}]}"#
    );
}

#[test]
fn binance_endpoint_lowercases_the_symbol() {
    let client = binance("BTCUSDT");
    assert_eq!(client.endpoint_url(), "wss://stream.binance.com:9443/ws/btcusdt@ticker");
}
