//! Real-time detection of quiet volume spikes on a market-data feed.
//!
//! Prices and volumes are fixed-point numbers with eight decimal places,
//! held as unsigned integers; timestamps are milliseconds since the epoch.
//! Thresholds are compared exactly, by cross-multiplication; an average and
//! a gain are cut to the fixed-point resolution; a number shown in a text is
//! rounded to the nearest digit shown, halves upward.
//!
//! The library decides and computes; it neither reads the feed nor writes
//! to subscribers or to disk.  `binance_client` turns ticks into per-minute
//! points, `store` keeps each symbol's window, `scanner` detects, `enrichment`
//! annotates a signal with what the lookups gave, `history` keeps the
//! ledger of outcomes, and `ws_server` says what a new subscriber is sent.

pub mod binance_client;
pub mod decimal;
pub mod enrichment;
pub mod fixed;
pub mod history;
pub mod model;
pub mod scanner;
pub mod store;
pub mod ws_server;
