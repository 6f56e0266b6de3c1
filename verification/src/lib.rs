//! A multi-exchange top-of-book market data library: venue symbol
//! translation, per-venue frame parsing into one canonical record,
//! reconnect supervision with exponential backoff, and fan-out dispatch.
pub mod dispatcher;
pub mod exchanges;
pub mod export;
pub mod json;
pub mod models;
pub mod num;
pub mod strutil;
pub mod supervisor;
pub mod translate;
