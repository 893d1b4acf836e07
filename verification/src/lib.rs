//! Verified core of a desktop stock-market data tool: calendar rules that
//! decide when market history must be fetched again, the parsing of the
//! quote feeds' text lines, the request and query texts sent to the quote
//! service and the local database, the candlestick-pattern catalogue, and
//! the bookkeeping of the background jobs.

pub mod text;
pub mod calendar;
pub mod error;
pub mod model;
pub mod indicator;
pub mod frame;
pub mod crawl;
pub mod sse;
pub mod database;
pub mod commands;
pub mod task;
