//! The canonical data model: venues, the normalized top-of-book record,
//! parse outcomes, the error taxonomy, and the plain configuration types.
use vstd::prelude::*;

verus! {

/// The fixed set of supported venues.
#[derive(Clone, Copy, PartialEq, Eq, Structural, Debug)]
pub enum Venue {
    Binance,
    Bybit,
    Kraken,
    Kucoin,
    Okx,
}

impl Venue {
    pub open spec fn spec_name(self) -> Seq<char> {
        match self {
            Venue::Binance => "binance"@,
            Venue::Bybit => "bybit"@,
            Venue::Kraken => "kraken"@,
            Venue::Kucoin => "kucoin"@,
            Venue::Okx => "okx"@,
        }
    }

    /// The lower-case identifier used in records and exports.
    pub fn name(&self) -> (r: &'static str)
        ensures
            r@ == self.spec_name(),
    {
        match self {
            Venue::Binance => "binance",
            Venue::Bybit => "bybit",
            Venue::Kraken => "kraken",
            Venue::Kucoin => "kucoin",
            Venue::Okx => "okx",
        }
    }

    pub open spec fn spec_from_name(s: Seq<char>) -> Option<Venue> {
        if s == "binance"@ {
            Some(Venue::Binance)
        } else if s == "bybit"@ {
            Some(Venue::Bybit)
        } else if s == "kraken"@ {
            Some(Venue::Kraken)
        } else if s == "kucoin"@ {
            Some(Venue::Kucoin)
        } else if s == "okx"@ {
            Some(Venue::Okx)
        } else {
            None
        }
    }

    /// The venue behind a caller-supplied identifier; `None` exactly on an
    /// unconfigured identifier, which subscription paths surface as
    /// `SoqaError::UnsupportedVenue`.
    pub fn from_name(s: &str) -> (r: Option<Venue>)
        ensures
            r == Venue::spec_from_name(s@),
    {
        if crate::strutil::str_eq(s, "binance") {
            Some(Venue::Binance)
        } else if crate::strutil::str_eq(s, "bybit") {
            Some(Venue::Bybit)
        } else if crate::strutil::str_eq(s, "kraken") {
            Some(Venue::Kraken)
        } else if crate::strutil::str_eq(s, "kucoin") {
            Some(Venue::Kucoin)
        } else if crate::strutil::str_eq(s, "okx") {
            Some(Venue::Okx)
        } else {
            None
        }
    }
}

/// The mathematical content of a `NormalizedTopOfBook`.
pub struct TobView {
    pub exchange: Venue,
    pub symbol: Seq<char>,
    pub bid: u64,
    pub bid_volume: u64,
    pub ask: u64,
    pub ask_volume: u64,
    pub timestamp_ms: u64,
    pub lossy: bool,
}

/// One observation of the best bid and ask on one venue.
///
/// Prices and sizes are fixed-point: ticks of `1 / num::SCALE` of a unit.
/// Crossed or zero quotes pass through unchanged — consumers filter.
/// `lossy` records that at least one numeric field was absent or
/// malformed on the wire and zero was substituted for it, so a true zero
/// quote stays distinguishable from a substitution.
#[derive(Debug)]
pub struct NormalizedTopOfBook {
    pub exchange: Venue,
    pub symbol: String,
    pub bid: u64,
    pub bid_volume: u64,
    pub ask: u64,
    pub ask_volume: u64,
    /// Milliseconds of local wall clock at the moment the frame was parsed.
    pub timestamp_ms: u64,
    pub lossy: bool,
}

impl View for NormalizedTopOfBook {
    type V = TobView;

    open spec fn view(&self) -> TobView {
        TobView {
            exchange: self.exchange,
            symbol: self.symbol@,
            bid: self.bid,
            bid_volume: self.bid_volume,
            ask: self.ask,
            ask_volume: self.ask_volume,
            timestamp_ms: self.timestamp_ms,
            lossy: self.lossy,
        }
    }
}

impl Clone for NormalizedTopOfBook {
    fn clone(&self) -> (r: Self)
        ensures
            r@ == self@,
    {
        NormalizedTopOfBook {
            exchange: self.exchange,
            symbol: self.symbol.clone(),
            bid: self.bid,
            bid_volume: self.bid_volume,
            ask: self.ask,
            ask_volume: self.ask_volume,
            timestamp_ms: self.timestamp_ms,
            lossy: self.lossy,
        }
    }
}

/// Protocol-control frames a venue may send; all are absorbed silently.
#[derive(Clone, Copy, PartialEq, Eq, Structural, Debug)]
pub enum ControlKind {
    Heartbeat,
    SubscribeAck,
    Pong,
    Welcome,
}

/// What one inbound frame meant.
#[derive(Debug)]
pub enum ParseOutcome {
    /// A genuine quote update.
    Quote(NormalizedTopOfBook),
    /// A recognized control frame; no record is emitted.
    Control(ControlKind),
    /// A venue-reported error, with the venue's message.
    VenueError(String),
    /// A recognized data frame that carried no usable quote.
    Empty,
    /// A frame that matched no known control, error or data shape.
    Failure,
}

/// The mathematical content of a `ParseOutcome`.
pub enum OutcomeView {
    Quote(TobView),
    Control(ControlKind),
    VenueError(Seq<char>),
    Empty,
    Failure,
}

impl View for ParseOutcome {
    type V = OutcomeView;

    open spec fn view(&self) -> OutcomeView {
        match self {
            ParseOutcome::Quote(r) => OutcomeView::Quote(r@),
            ParseOutcome::Control(k) => OutcomeView::Control(*k),
            ParseOutcome::VenueError(m) => OutcomeView::VenueError(m@),
            ParseOutcome::Empty => OutcomeView::Empty,
            ParseOutcome::Failure => OutcomeView::Failure,
        }
    }
}

/// The shared error taxonomy.
///
/// Transient transport and liveness problems are recovered inside the
/// supervisor; only the non-recoverable conditions here surface to the
/// caller of a subscription.
#[derive(Debug)]
pub enum SoqaError {
    /// Connect, read or write failure; always retried via backoff.
    TransportError(String),
    /// No subscribe acknowledgment within the bounded window.
    HandshakeTimeout,
    /// The venue rejected the symbol or channel, or the retry budget ran
    /// out; fatal for the adapter instance.
    SubscriptionRejected(String),
    /// A frame matched no known shape; counted, never fatal.
    ParseFailure,
    /// The caller named a venue outside the configured set.
    UnsupportedVenue(String),
    /// The export sink could not be written.
    ExportError(String),
}

/// Per-subscription configuration. Credentials are reserved and unused by
/// public market data.
#[derive(Debug)]
pub struct Config {
    pub exchange: String,
    pub symbol: String,
    pub api_key: Option<String>,
    pub api_secret: Option<String>,
}

impl Config {
    pub fn new(exchange: &str, symbol: &str) -> (r: Self)
        ensures
            r.exchange@ == exchange@,
            r.symbol@ == symbol@,
            r.api_key is None,
            r.api_secret is None,
    {
        Config {
            exchange: exchange.to_owned(),
            symbol: symbol.to_owned(),
            api_key: None,
            api_secret: None,
        }
    }

    /// The configuration for a subscription, rejected up front — before
    /// any connection attempt — exactly when the venue identifier is
    /// outside the configured set.
    pub fn for_subscription(exchange: &str, symbol: &str) -> (r: Result<(Venue, Self), SoqaError>)
        ensures
            match r {
                Ok(pair) => Venue::spec_from_name(exchange@) == Some(pair.0)
                    && pair.1.exchange@ == exchange@ && pair.1.symbol@ == symbol@
                    && pair.1.api_key is None && pair.1.api_secret is None,
                Err(e) => Venue::spec_from_name(exchange@) is None && (e matches
                    SoqaError::UnsupportedVenue(m) && m@ == exchange@),
            },
    {
        match Venue::from_name(exchange) {
            Some(venue) => Ok((venue, Config::new(exchange, symbol))),
            None => Err(SoqaError::UnsupportedVenue(exchange.to_owned())),
        }
    }
}

/// The command-line surface, as plain data; the binary owns the parsing.
#[derive(Debug)]
pub struct Cli {
    pub command: Commands,
}

#[derive(Debug)]
pub enum Commands {
    Start { exchange: String, symbol: String, level: String },
    Export { exchange: String, symbol: String, output: String },
}

} // verus!
