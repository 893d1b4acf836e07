//! The decisions behind the commands the user interface calls: which
//! history to serve and from where, what to search for, how pattern records
//! are attached to history rows, and how channel messages are routed.

use vstd::prelude::*;
use std::collections::BTreeMap;
use crate::calendar::{
    Date,
    DateTime,
    date_from_ymd,
    get_default_end_date,
    check_crawl_by_time,
    last_market_close,
    days_from_ce,
    valid_ymd,
};
use crate::text::{starts_with_char, string_views};
use crate::model::{StockHistCrawlLog, StockIndicator};

verus! {

broadcast use vstd::laws_cmp::group_laws_cmp, vstd::std_specs::btree::group_btree_axioms;

/// The greeting shown to `name`.
pub fn greet(name: &str) -> (s: String)
    ensures
        s@ == "Hello, "@ + name@ + "! You've been greeted from Rust!"@,
{
    let mut s = "Hello, ".to_owned();
    s.append(name);
    s.append("! You've been greeted from Rust!");
    s
}

/// The name of the file that holds the history of `symbol` on `market`
/// with adjustment `adjust`.
pub open spec fn parquet_name(symbol: Seq<char>, market: Seq<char>, adjust: Seq<char>) -> Seq<
    char,
> {
    symbol + "_"@ + market + "_"@ + adjust + ".parquet"@
}

/// The name of the file that holds the history of `symbol` on `market`
/// with adjustment `adjust`: `{symbol}_{market}_{adjust}.parquet`.
pub fn parquet_file_name(symbol: &str, market: &str, adjust: &str) -> (s: String)
    ensures
        s@ == parquet_name(symbol@, market@, adjust@),
{
    let mut s = symbol.to_owned();
    s.append("_");
    s.append(market);
    s.append("_");
    s.append(adjust);
    s.append(".parquet");
    s
}

/// The first day of history ever asked for, `19700101`.
pub open spec fn crawl_start_text() -> Seq<char> {
    "19700101"@
}

/// The last day of history ever asked for, `20991231`.
pub open spec fn crawl_end_text() -> Seq<char> {
    "20991231"@
}

/// How the history command goes about serving `symbol`.
#[derive(Clone, Debug, PartialEq, Eq)]
pub struct KlineHistPlan {
    /// The last day served.
    pub end_date: Date,
    /// The price adjustment.
    pub adjust: String,
    /// The file that holds the history.
    pub file_name: String,
    /// Whether the history must be fetched from the quote service.
    pub to_crawl: bool,
}

/// Plans the history command for `symbol` on `market`: the adjustment
/// defaults to forward (`qfq`), the end day to the last day whose history is
/// complete, and the history is fetched again when there is no crawl record
/// or the recorded crawl is not later than the most recent market close.
pub fn plan_kline_hist(
    symbol: &str,
    market: &str,
    adjust: Option<String>,
    end_date: Option<Date>,
    crawl_log: &Option<StockHistCrawlLog>,
) -> (plan: KlineHistPlan)
    ensures
        match adjust {
            Some(a) => plan.adjust@ == a@,
            None => plan.adjust@ == "qfq"@,
        },
        match end_date {
            Some(d) => plan.end_date == d,
            None => exists|now: DateTime|
                now.wf() && now.date.days >= 719162 && plan.end_date == last_market_close(
                    now,
                ).date,
        },
        plan.file_name@ == parquet_name(symbol@, market@, plan.adjust@),
        match crawl_log {
            None => plan.to_crawl,
            Some(log) => exists|now: DateTime|
                now.wf() && now.date.days >= 719162 && plan.to_crawl == !last_market_close(
                    now,
                ).spec_before(log.crawl_time),
        },
{
    let end = match end_date {
        Some(d) => d,
        None => get_default_end_date(),
    };
    let adjust = match adjust {
        Some(a) => a,
        None => "qfq".to_owned(),
    };
    let to_crawl = match crawl_log {
        Some(log) => check_crawl_by_time(log.crawl_time),
        None => true,
    };
    let file_name = parquet_file_name(symbol, market, adjust.as_str());
    KlineHistPlan { end_date: end, adjust, file_name, to_crawl }
}

/// Whether the history must come from the quote service: when it is due,
/// or when the stored file could not be read.
pub fn fetch_remote(to_crawl: bool, local_read_ok: bool) -> (r: bool)
    ensures
        r == (to_crawl || !local_read_ok),
{
    to_crawl || !local_read_ok
}

/// The text of the last record in `ind` for day `d`, if any; a later
/// record for a day replaces an earlier one.
pub open spec fn latest_indicator(ind: Seq<StockIndicator>, d: int) -> Option<String>
    decreases ind.len(),
{
    if ind.len() == 0 {
        None
    } else if ind.last().date.days == d {
        Some(ind.last().kline_indicator)
    } else {
        latest_indicator(ind.drop_last(), d)
    }
}

/// The days between which pattern records are looked up: the given bounds,
/// else January 1, 1970 and December 31, 2099.
pub fn indicator_query_range(start_date: Option<Date>, end_date: Option<Date>) -> (r: (
    Date,
    Date,
))
    ensures
        r.0 == (match start_date {
            Some(d) => d,
            None => Date { days: 719163 },
        }),
        r.1 == (match end_date {
            Some(d) => d,
            None => Date { days: 766644 },
        }),
{
    let first = date_from_ymd(1970, 1, 1);
    let last = date_from_ymd(2099, 12, 31);
    assert(valid_ymd(1970, 1, 1) && days_from_ce(1970, 1, 1) == 719163);
    assert(valid_ymd(2099, 12, 31) && days_from_ce(2099, 12, 31) == 766644);
    let mut start = match first {
        Some(d) => d,
        None => Date { days: 0 },
    };
    let mut end = match last {
        Some(d) => d,
        None => Date { days: 0 },
    };
    if let Some(d) = start_date {
        start = d;
    }
    if let Some(d) = end_date {
        end = d;
    }
    (start, end)
}

/// The pattern texts of history rows dated `dates`, after attaching the
/// records `indicators`: a row with a record for its day gets the text of
/// the last such record; the others keep `current`.
pub fn attach_kp_indicators(
    dates: &Vec<Date>,
    current: Vec<Option<String>>,
    indicators: &Vec<StockIndicator>,
) -> (r: Vec<Option<String>>)
    requires
        current@.len() == dates@.len(),
    ensures
        r@.len() == dates@.len(),
        forall|i: int|
            0 <= i < dates@.len() ==> r@[i] == (match latest_indicator(
                indicators@,
                dates@[i].days as int,
            ) {
                Some(t) => Some(t),
                None => current@[i],
            }),
{
    let mut map: BTreeMap<i32, String> = BTreeMap::new();
    let mut j: usize = 0;
    while j < indicators.len()
        invariant
            j <= indicators@.len(),
            forall|k: i32|
                #![trigger map@.contains_key(k)]
                map@.contains_key(k) == (latest_indicator(indicators@.take(j as int), k as int)
                    is Some),
            forall|k: i32|
                map@.contains_key(k) ==> Some(#[trigger] map@[k]) == latest_indicator(
                    indicators@.take(j as int),
                    k as int,
                ),
        decreases indicators.len() - j,
    {
        let rec = &indicators[j];
        map.insert(rec.date.days, rec.kline_indicator.clone());
        assert(indicators@.take(j + 1).drop_last() =~= indicators@.take(j as int));
        assert(indicators@.take(j + 1).last() == indicators@[j as int]);
        j = j + 1;
    }
    assert(indicators@.take(indicators.len() as int) =~= indicators@);
    let mut r: Vec<Option<String>> = current;
    let mut i: usize = 0;
    while i < dates.len()
        invariant
            i <= dates@.len(),
            r@.len() == dates@.len(),
            current@.len() == dates@.len(),
            forall|k: i32|
                #![trigger map@.contains_key(k)]
                map@.contains_key(k) == (latest_indicator(indicators@, k as int) is Some),
            forall|k: i32|
                map@.contains_key(k) ==> Some(#[trigger] map@[k]) == latest_indicator(
                    indicators@,
                    k as int,
                ),
            forall|k: int|
                0 <= k < i ==> r@[k] == (match latest_indicator(
                    indicators@,
                    dates@[k].days as int,
                ) {
                    Some(t) => Some(t),
                    None => current@[k],
                }),
            forall|k: int| i <= k < dates@.len() ==> r@[k] == current@[k],
        decreases dates.len() - i,
    {
        let key = dates[i].days;
        match map.get(&key) {
            Some(t) => {
                r.set(i, Some(t.clone()));
            },
            None => {},
        }
        i = i + 1;
    }
    r
}

/// The exchange code of a stock for the push stream: 1 for symbols that
/// begin with `6` (Shanghai), else 0.
pub fn market_for_symbol(symbol: &str) -> (m: u8)
    ensures
        m == (if symbol@.len() > 0 && symbol@[0] == '6' {
            1u8
        } else {
            0u8
        }),
{
    if starts_with_char(symbol, '6') {
        1
    } else {
        0
    }
}

/// The kinds of message carried on the application's channels.
#[derive(Clone, Copy, Debug, PartialEq, Eq, Structural)]
pub enum PayloadKind {
    Dashboard,
    KLine,
    KLineRT,
    CloseChannel,
}

/// What a channel listener does with a message.
#[derive(Clone, Copy, Debug, PartialEq, Eq, Structural)]
pub enum ChannelAction {
    /// Send the message on to the user interface.
    Emit,
    /// Stop listening and close the channel.
    Close,
    /// Drop the message.
    Ignore,
}

/// What the live-quote listener does: passes on minute trends, stops on a
/// close request, drops the rest.
pub fn kline_channel_action(kind: PayloadKind) -> (a: ChannelAction)
    ensures
        a == (match kind {
            PayloadKind::KLineRT => ChannelAction::Emit,
            PayloadKind::CloseChannel => ChannelAction::Close,
            _ => ChannelAction::Ignore,
        }),
{
    match kind {
        PayloadKind::KLineRT => ChannelAction::Emit,
        PayloadKind::CloseChannel => ChannelAction::Close,
        _ => ChannelAction::Ignore,
    }
}

/// What the global listener does: passes on dashboard updates and drops
/// everything else; it never stops on its own.
pub fn global_channel_action(kind: PayloadKind) -> (a: ChannelAction)
    ensures
        a == (if kind == PayloadKind::Dashboard {
            ChannelAction::Emit
        } else {
            ChannelAction::Ignore
        }),
{
    match kind {
        PayloadKind::Dashboard => ChannelAction::Emit,
        _ => ChannelAction::Ignore,
    }
}

/// A column a list can be sorted by, and the direction.
#[derive(Clone, Debug, PartialEq, Eq)]
pub struct SortOrder {
    pub field: String,
    pub order: String,
}

/// The filters of the stock list.
#[derive(Clone, Debug, PartialEq, Eq)]
pub struct SearchParams {
    pub symbol: Option<String>,
    pub market: Option<String>,
    pub follow_only: bool,
}

/// A stock search: the text looked for, the markets searched and the most
/// stocks taken from each.
#[derive(Clone, Debug, PartialEq, Eq)]
pub struct StockQuery {
    pub q: String,
    pub markets: Vec<String>,
    pub limit: u8,
}

/// The markets searched when none are named: Shanghai and Shenzhen.
pub open spec fn default_markets() -> Seq<Seq<char>> {
    seq!["sh"@, "sz"@]
}

fn both_markets() -> (v: Vec<String>)
    ensures
        string_views(v@) == default_markets(),
{
    let mut v: Vec<String> = Vec::new();
    v.push("sh".to_owned());
    v.push("sz".to_owned());
    assert(string_views(v@) =~= default_markets());
    v
}

/// The search behind the quick-search box: `q` in the given markets, else
/// Shanghai and Shenzhen, three stocks from each.
pub fn fuzzy_query_request(q: String, market: Option<Vec<String>>) -> (s: StockQuery)
    ensures
        s.q == q,
        s.limit == 3,
        match market {
            Some(m) => s.markets == m,
            None => string_views(s.markets@) == default_markets(),
        },
{
    let markets = match market {
        Some(m) => m,
        None => both_markets(),
    };
    StockQuery { q, markets, limit: 3 }
}

/// The search behind the stock list: the symbol filter, else `6`, in
/// Shanghai and Shenzhen, ten stocks from each.
pub fn stock_list_request(params: &SearchParams) -> (s: StockQuery)
    ensures
        s.q@ == (match params.symbol {
            Some(x) => x@,
            None => "6"@,
        }),
        s.limit == 10,
        string_views(s.markets@) == default_markets(),
{
    let q = match &params.symbol {
        Some(x) => x.clone(),
        None => "6".to_owned(),
    };
    StockQuery { q, markets: both_markets(), limit: 10 }
}

/// An event of the back-testing helper process.
#[derive(Clone, Copy, Debug, PartialEq, Eq, Structural)]
pub enum SidecarEvent {
    /// A line on its standard output.
    Stdout,
    /// A line on its standard error.
    Stderr,
    /// Anything else.
    Other,
}

/// What to do with an event of the helper process.
#[derive(Clone, Copy, Debug, PartialEq, Eq, Structural)]
pub enum SidecarAction {
    /// Print the line and answer on the helper's input.
    PrintAndReply,
    /// Print the line.
    Print,
    /// Nothing.
    Ignore,
}

/// The line written to the helper's input after each line of its output.
pub fn sidecar_reply() -> (s: String)
    ensures
        s@ == "message from Rust\n"@,
{
    "message from Rust\n".to_owned()
}

/// What to do with an event of the helper process: output lines are printed
/// and answered, error lines printed, the rest ignored.
pub fn sidecar_action(event: SidecarEvent) -> (a: SidecarAction)
    ensures
        a == (match event {
            SidecarEvent::Stdout => SidecarAction::PrintAndReply,
            SidecarEvent::Stderr => SidecarAction::Print,
            SidecarEvent::Other => SidecarAction::Ignore,
        }),
{
    match event {
        SidecarEvent::Stdout => SidecarAction::PrintAndReply,
        SidecarEvent::Stderr => SidecarAction::Print,
        SidecarEvent::Other => SidecarAction::Ignore,
    }
}

} // verus!
