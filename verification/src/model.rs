//! The records the application keeps and exchanges, and their defaults.

use vstd::prelude::*;
use crate::calendar::{Date, DateTime};

verus! {

/// The user's settings.
#[derive(Clone, Debug, PartialEq, Eq)]
pub struct UserConfig {
    pub theme: String,
    pub language: String,
    pub data_dir: String,
}

/// Settings of the running system.
#[derive(Clone, Copy, Debug, PartialEq, Eq, Structural)]
pub struct SystemProps {
    /// Capacity of the message channels.
    pub buffer_size: usize,
}

/// What the user interface sends to start the global event stream.
#[derive(Clone, Debug, PartialEq, Eq)]
pub struct InitializePayload {
    pub msg_id: Option<i64>,
}

/// A listed stock.
#[derive(Clone, Debug, PartialEq, Eq)]
pub struct CNStockBasic {
    pub symbol: String,
    pub name: String,
    pub market: String,
    pub publish_date: Option<String>,
    pub is_delete: bool,
}

/// Whether the exchange trades on a day.
#[derive(Clone, Debug, PartialEq, Eq)]
pub struct CNStockMarketCalendar {
    pub market: String,
    pub date: Date,
    pub is_open: bool,
}

/// A stock the user follows.
#[derive(Clone, Debug, PartialEq, Eq)]
pub struct StockFollow {
    pub symbol: String,
    pub market: String,
    pub follow_time: Option<DateTime>,
}

/// The record of the last fetch of a stock's history.
#[derive(Clone, Debug, PartialEq, Eq)]
pub struct StockHistCrawlLog {
    pub symbol: String,
    pub market: String,
    pub adjust: String,
    pub start_date: Date,
    pub end_date: Date,
    pub crawl_time: DateTime,
}

/// The candlestick patterns found on one day of a stock's history: the
/// pattern signals as JSON text (an object from pattern name to signal),
/// and whether any signal is set.
#[derive(Clone, Debug, PartialEq, Eq)]
pub struct StockIndicator {
    pub symbol: String,
    pub market: String,
    pub adjust: String,
    pub date: Date,
    pub kline_indicator: String,
    pub is_kline_special: bool,
    pub modify_time: DateTime,
    pub create_time: DateTime,
}

/// The directory where market history files are kept unless the user chose
/// another.
pub fn default_data_dir() -> (s: String)
    ensures
        s@ == "/Users/niko/Downloads/mystock_parquets"@,
{
    "/Users/niko/Downloads/mystock_parquets".to_owned()
}

/// The settings a new user starts with: the dark theme, Simplified Chinese,
/// and the default data directory.
pub fn default_user_config() -> (c: UserConfig)
    ensures
        c.theme@ == "dark"@,
        c.language@ == "zh_CN"@,
        c.data_dir@ == "/Users/niko/Downloads/mystock_parquets"@,
{
    UserConfig {
        theme: "dark".to_owned(),
        language: "zh_CN".to_owned(),
        data_dir: default_data_dir(),
    }
}

/// The system settings the application starts with: channels of 100
/// messages.
pub fn default_system_props() -> (p: SystemProps)
    ensures
        p.buffer_size == 100,
{
    SystemProps { buffer_size: 100 }
}

} // verus!
