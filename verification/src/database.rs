//! The texts of the database statements, and the decisions taken between
//! the statements the application runs.

use vstd::prelude::*;
use crate::text::{
    all_digits,
    decimal,
    decimal_string,
    digits_value,
    join_with,
    join_strings,
    lemma_decimal_reads_back,
    string_views,
};
use crate::error::SysError;
use crate::calendar::{Date, compact_date_parse, parse_compact_date};

verus! {

/// The number of seed statements run in one transaction.
pub const SEED_CHUNK: usize = 100;

/// The statement that reads the crawl record of one history file.
pub open spec fn crawl_log_sql(symbol: Seq<char>, market: Seq<char>, adjust: Seq<char>) -> Seq<
    char,
> {
    "select * from cn_stock_hist_crawl_log where symbol = '"@ + symbol + "' and market = '"@
        + market + "' and adjust = '"@ + adjust + "'"@
}

/// The statement that reads the crawl record of the history of `symbol` on
/// `market` with adjustment `adjust`.
pub fn crawl_log_query(symbol: &str, market: &str, adjust: &str) -> (sql: String)
    ensures
        sql@ == crawl_log_sql(symbol@, market@, adjust@),
{
    let mut sql = "select * from cn_stock_hist_crawl_log where symbol = '".to_owned();
    sql.append(symbol);
    sql.append("' and market = '");
    sql.append(market);
    sql.append("' and adjust = '");
    sql.append(adjust);
    sql.append("'");
    sql
}

/// The part of the stock search that looks in one market: at most `limit`
/// stocks of market `x` whose symbol or name contains `q`, by symbol.
pub open spec fn fuzzy_select(q: Seq<char>, x: Seq<char>, limit: u8) -> Seq<char> {
    "select * from (select * from cn_stock_basic where (symbol like  '%"@ + q
        + "%' OR  name like '%"@ + q + "%') and market = '"@ + x
        + "' order by symbol asc limit "@ + decimal(limit as nat) + ") "@
}

/// The stock search over several markets: one part per market, joined by
/// `UNION`.
pub open spec fn fuzzy_sql(q: Seq<char>, markets: Seq<Seq<char>>, limit: u8) -> Seq<char> {
    join_with(markets.map_values(|x: Seq<char>| fuzzy_select(q, x, limit)), " UNION "@)
}

fn fuzzy_select_query(q: &str, x: &str, limit: &str) -> (sql: String)
    ensures
        sql@ == "select * from (select * from cn_stock_basic where (symbol like  '%"@ + q@
            + "%' OR  name like '%"@ + q@ + "%') and market = '"@ + x@
            + "' order by symbol asc limit "@ + limit@ + ") "@,
{
    let mut sql = "select * from (select * from cn_stock_basic where (symbol like  '%".to_owned();
    sql.append(q);
    sql.append("%' OR  name like '%");
    sql.append(q);
    sql.append("%') and market = '");
    sql.append(x);
    sql.append("' order by symbol asc limit ");
    sql.append(limit);
    sql.append(") ");
    sql
}

/// The statement that searches `markets` for stocks whose symbol or name
/// contains `q`, at most `limit` per market.
pub fn fuzzy_query_sql(q: &str, markets: &Vec<String>, limit: u8) -> (sql: String)
    ensures
        sql@ == fuzzy_sql(q@, string_views(markets@), limit),
{
    let limit_text = decimal_string(limit as u64);
    let mut sqls: Vec<String> = Vec::new();
    let mut i: usize = 0;
    while i < markets.len()
        invariant
            i <= markets.len(),
            limit_text@ == decimal(limit as nat),
            string_views(sqls@) =~= string_views(markets@.take(i as int)).map_values(
                |x: Seq<char>| fuzzy_select(q@, x, limit),
            ),
        decreases markets.len() - i,
    {
        let part = fuzzy_select_query(q, markets[i].as_str(), limit_text.as_str());
        let ghost before = sqls@;
        sqls.push(part);
        assert(string_views(sqls@) =~= string_views(before).push(part@));
        assert(string_views(markets@.take(i + 1)) =~= string_views(markets@.take(i as int)).push(
            markets@[i as int]@,
        ));
        i = i + 1;
    }
    assert(markets@.take(markets.len() as int) =~= markets@);
    join_strings(&sqls, " UNION ")
}

/// A statement of the schema set-up and the message the application stops
/// with when it fails.
pub type MigrationStep = (String, String);

/// The texts of a list of set-up statements and messages.
pub open spec fn steps_view(v: Seq<MigrationStep>) -> Seq<(Seq<char>, Seq<char>)> {
    v.map_values(|p: MigrationStep| (p.0@, p.1@))
}

/// The schema set-up, in the order it runs: each table with its unique
/// index, and the message of a failure.
pub open spec fn migration_plan() -> Seq<(Seq<char>, Seq<char>)> {
    seq![
        ("\n        CREATE TABLE IF NOT EXISTS cn_stock_calendar (\n            id INTEGER PRIMARY KEY AUTOINCREMENT,\n            date TEXT NOT NULL,\n            is_open BOOLEAN NOT NULL DEFAULT true\n        );\n    "@,
            "Error while executing migration. create table `cn_stock_calendar`"@),
        ("CREATE UNIQUE INDEX IF NOT EXISTS unq_date ON cn_stock_calendar(date);"@,
            "Error while executing migration"@),
        ("\n        CREATE TABLE IF NOT EXISTS cn_stock_basic (\n            id INTEGER PRIMARY KEY AUTOINCREMENT,\n            symbol TEXT NOT NULL,\n            name TEXT NOT NULL,\n            market TEXT NOT NULL,\n            publish_date TEXT,\n            related_ids TEXT,\n            is_delete INTEGER NOT NULL DEFAULT 0\n        );\n    "@,
            "Error while executing migration. create table `cn_stock_basic`"@),
        ("CREATE UNIQUE INDEX IF NOT EXISTS unq_symbol ON cn_stock_basic(symbol, is_delete);"@,
            "Error while executing migration"@),
        ("\n        CREATE TABLE IF NOT EXISTS user_stock_follow (\n            id INTEGER PRIMARY KEY AUTOINCREMENT,\n            symbol TEXT NOT NULL,\n            market TEXT NOT NULL,\n            follow_time TEXT NOT NULL\n        )\n    "@,
            "Error while executing migration. create table `cn_stock_basic`"@),
        ("CREATE UNIQUE INDEX IF NOT EXISTS unq_symbol ON user_stock_follow(symbol, market);"@,
            "Error while executing migration"@),
        ("\n        CREATE TABLE IF NOT EXISTS cn_stock_hist_crawl_log (\n            id INTEGER PRIMARY KEY AUTOINCREMENT,\n            symbol TEXT NOT NULL,\n            market TEXT NOT NULL,\n            adjust TEXT NOT NULL,\n            start_date TEXT NOT NULL,\n            end_date TEXT NOT NULL,\n            crawl_time TEXT NOT NULL\n        )\n    "@,
            "Error while executing migration. create table `cn_stock_hist_crawl_log`"@),
        ("\n    CREATE UNIQUE INDEX IF NOT EXISTS unq_symbol_market_adjust ON cn_stock_hist_crawl_log(symbol, market, adjust);\n    "@,
            "Error while executing migration"@),
        ("\n        CREATE TABLE IF NOT EXISTS cn_stock_indicators (\n            id INTEGER PRIMARY KEY AUTOINCREMENT,\n            symbol TEXT NOT NULL,\n            market TEXT NOT NULL,\n            adjust TEXT NOT NULL,\n            date TEXT NOT NULL,\n            kline_indicator TEXT NOT NULL,\n            is_kline_special BOOLEAN NOT NULL,\n            create_time TEXT NOT NULL DEFAULT CURRENT_TIMESTAMP,\n            modify_time TEXT NOT NULL\n        )\n    "@,
            "Error while executing migration. create table `cn_stock_indicators`"@),
        ("\n    CREATE UNIQUE INDEX IF NOT EXISTS unq_symbol_market_adjust_date ON cn_stock_indicators(symbol, market, adjust, date);\n    "@,
            "Error while executing migration"@),
    ]
}

fn step(sql: &str, message: &str) -> (p: MigrationStep)
    ensures
        p.0@ == sql@,
        p.1@ == message@,
{
    (sql.to_owned(), message.to_owned())
}

/// The schema set-up statements, in the order they run, each with the
/// message the application stops with when it fails.
pub fn migration_steps() -> (v: Vec<MigrationStep>)
    ensures
        steps_view(v@) == migration_plan(),
{
    let mut v: Vec<MigrationStep> = Vec::new();
    v.push(step("\n        CREATE TABLE IF NOT EXISTS cn_stock_calendar (\n            id INTEGER PRIMARY KEY AUTOINCREMENT,\n            date TEXT NOT NULL,\n            is_open BOOLEAN NOT NULL DEFAULT true\n        );\n    ",
        "Error while executing migration. create table `cn_stock_calendar`"));
    v.push(step("CREATE UNIQUE INDEX IF NOT EXISTS unq_date ON cn_stock_calendar(date);",
        "Error while executing migration"));
    v.push(step("\n        CREATE TABLE IF NOT EXISTS cn_stock_basic (\n            id INTEGER PRIMARY KEY AUTOINCREMENT,\n            symbol TEXT NOT NULL,\n            name TEXT NOT NULL,\n            market TEXT NOT NULL,\n            publish_date TEXT,\n            related_ids TEXT,\n            is_delete INTEGER NOT NULL DEFAULT 0\n        );\n    ",
        "Error while executing migration. create table `cn_stock_basic`"));
    v.push(step("CREATE UNIQUE INDEX IF NOT EXISTS unq_symbol ON cn_stock_basic(symbol, is_delete);",
        "Error while executing migration"));
    v.push(step("\n        CREATE TABLE IF NOT EXISTS user_stock_follow (\n            id INTEGER PRIMARY KEY AUTOINCREMENT,\n            symbol TEXT NOT NULL,\n            market TEXT NOT NULL,\n            follow_time TEXT NOT NULL\n        )\n    ",
        "Error while executing migration. create table `cn_stock_basic`"));
    v.push(step("CREATE UNIQUE INDEX IF NOT EXISTS unq_symbol ON user_stock_follow(symbol, market);",
        "Error while executing migration"));
    v.push(step("\n        CREATE TABLE IF NOT EXISTS cn_stock_hist_crawl_log (\n            id INTEGER PRIMARY KEY AUTOINCREMENT,\n            symbol TEXT NOT NULL,\n            market TEXT NOT NULL,\n            adjust TEXT NOT NULL,\n            start_date TEXT NOT NULL,\n            end_date TEXT NOT NULL,\n            crawl_time TEXT NOT NULL\n        )\n    ",
        "Error while executing migration. create table `cn_stock_hist_crawl_log`"));
    v.push(step("\n    CREATE UNIQUE INDEX IF NOT EXISTS unq_symbol_market_adjust ON cn_stock_hist_crawl_log(symbol, market, adjust);\n    ",
        "Error while executing migration"));
    v.push(step("\n        CREATE TABLE IF NOT EXISTS cn_stock_indicators (\n            id INTEGER PRIMARY KEY AUTOINCREMENT,\n            symbol TEXT NOT NULL,\n            market TEXT NOT NULL,\n            adjust TEXT NOT NULL,\n            date TEXT NOT NULL,\n            kline_indicator TEXT NOT NULL,\n            is_kline_special BOOLEAN NOT NULL,\n            create_time TEXT NOT NULL DEFAULT CURRENT_TIMESTAMP,\n            modify_time TEXT NOT NULL\n        )\n    ",
        "Error while executing migration. create table `cn_stock_indicators`"));
    v.push(step("\n    CREATE UNIQUE INDEX IF NOT EXISTS unq_symbol_market_adjust_date ON cn_stock_indicators(symbol, market, adjust, date);\n    ",
        "Error while executing migration"));
    assert(steps_view(v@) =~= migration_plan());
    v
}

/// Whether the trading calendar must be seeded: it holds no rows yet.
pub fn calendar_needs_seed(count: i64) -> (r: bool)
    ensures
        r == (count == 0),
{
    count == 0
}

/// `s` cut into consecutive pieces of `size` items, the last one possibly
/// shorter, as `chunks(size)` cuts it.
pub open spec fn chunks_of(s: Seq<String>, size: nat) -> Seq<Seq<String>>
    decreases s.len(),
{
    if s.len() == 0 || size == 0 {
        Seq::<Seq<String>>::empty()
    } else if s.len() <= size {
        seq![s]
    } else {
        seq![s.take(size as int)] + chunks_of(s.skip(size as int), size)
    }
}

/// The pieces glued back together in order.
pub open spec fn flatten(c: Seq<Seq<String>>) -> Seq<String>
    decreases c.len(),
{
    if c.len() == 0 {
        Seq::<String>::empty()
    } else {
        c[0] + flatten(c.drop_first())
    }
}

/// Cuts the seed statements into pieces of `size`, each run in one
/// transaction.
pub fn chunk_lines(lines: &Vec<String>, size: usize) -> (chunks: Vec<Vec<String>>)
    requires
        size > 0,
    ensures
        chunks@.map_values(|c: Vec<String>| c@) == chunks_of(lines@, size as nat),
{
    let mut chunks: Vec<Vec<String>> = Vec::new();
    let mut pos: usize = 0;
    let n = lines.len();
    assert(lines@.skip(0) =~= lines@);
    assert(chunks@.map_values(|c: Vec<String>| c@) + chunks_of(lines@, size as nat) =~= chunks_of(
        lines@,
        size as nat,
    ));
    while pos < n
        invariant
            n == lines@.len(),
            pos <= n,
            size > 0,
            chunks_of(lines@, size as nat) == chunks@.map_values(|c: Vec<String>| c@)
                + chunks_of(lines@.skip(pos as int), size as nat),
        decreases n - pos,
    {
        let end = if n - pos <= size {
            n
        } else {
            pos + size
        };
        let mut chunk: Vec<String> = Vec::new();
        let mut k = pos;
        while k < end
            invariant
                pos <= k <= end <= n,
                n == lines@.len(),
                chunk@ == lines@.subrange(pos as int, k as int),
            decreases end - k,
        {
            chunk.push(lines[k].clone());
            assert(chunk@ =~= lines@.subrange(pos as int, k + 1));
            k = k + 1;
        }
        let ghost rest = lines@.skip(pos as int);
        let ghost before = chunks@.map_values(|c: Vec<String>| c@);
        chunks.push(chunk);
        assert(chunks@.map_values(|c: Vec<String>| c@) =~= before.push(chunk@));
        if n - pos <= size {
            assert(chunk@ =~= rest);
            assert(chunks_of(rest, size as nat) == seq![rest]);
            assert(lines@.skip(end as int) =~= Seq::<String>::empty());
            assert(chunks_of(lines@.skip(end as int), size as nat) =~= Seq::<Seq<String>>::empty());
            assert(before + seq![rest] =~= before.push(chunk@) + Seq::<Seq<String>>::empty());
        } else {
            assert(chunk@ =~= rest.take(size as int));
            assert(rest.skip(size as int) =~= lines@.skip(end as int));
            assert(before + (seq![rest.take(size as int)] + chunks_of(rest.skip(size as int), size as nat))
                =~= before.push(chunk@) + chunks_of(lines@.skip(end as int), size as nat));
        }
        pos = end;
    }
    assert(lines@.skip(n as int) =~= Seq::<String>::empty());
    assert(chunks@.map_values(|c: Vec<String>| c@) + Seq::<Seq<String>>::empty() =~= chunks@.map_values(|c: Vec<String>| c@));
    chunks
}

/// Cutting into pieces loses and reorders nothing, and every piece holds
/// between one and `size` items.
pub proof fn lemma_chunks_flatten(s: Seq<String>, size: nat)
    requires
        size > 0,
    ensures
        flatten(chunks_of(s, size)) == s,
        forall|i: int|
            0 <= i < chunks_of(s, size).len() ==> 1 <= #[trigger] chunks_of(s, size)[i].len()
                <= size,
    decreases s.len(),
{
    if s.len() == 0 {
    } else if s.len() <= size {
        let c = chunks_of(s, size);
        assert(c.drop_first() =~= Seq::<Seq<String>>::empty());
        assert(flatten(Seq::<Seq<String>>::empty()) == Seq::<String>::empty());
        assert(flatten(c) =~= s + Seq::<String>::empty());
    } else {
        lemma_chunks_flatten(s.skip(size as int), size);
        let c = chunks_of(s, size);
        assert(c.drop_first() =~= chunks_of(s.skip(size as int), size));
        assert(s.take(size as int) + s.skip(size as int) =~= s);
        assert forall|i: int| 0 <= i < c.len() implies 1 <= #[trigger] c[i].len() <= size by {
            if i > 0 {
                assert(c[i] == chunks_of(s.skip(size as int), size)[i - 1]);
            }
        }
    }
}

/// The days a crawl record covers, read from `yyyymmdd` texts; a text that
/// does not read as a day stops the save with the parse error's text, the
/// first day's error first.
pub fn crawl_log_range(crawl_start: &str, crawl_end: &str) -> (r: Result<(Date, Date), SysError>)
    ensures
        match (compact_date_parse(crawl_start@), compact_date_parse(crawl_end@)) {
            (Ok(a), Ok(b)) => r == Ok::<(Date, Date), SysError>(
                (Date { days: a as i32 }, Date { days: b as i32 }),
            ),
            (Err(m), _) => r matches Err(SysError::Anyhow(e)) && e@ == m,
            (Ok(_), Err(m)) => r matches Err(SysError::Anyhow(e)) && e@ == m,
        },
{
    let start = match parse_compact_date(crawl_start) {
        Ok(d) => d,
        Err(e) => {
            return Err(SysError::Anyhow(e));
        },
    };
    let end = match parse_compact_date(crawl_end) {
        Ok(d) => d,
        Err(e) => {
            return Err(SysError::Anyhow(e));
        },
    };
    Ok((start, end))
}

/// Whether the crawl record must be inserted: updating it did not change
/// exactly one row.
pub fn crawl_log_needs_insert(rows_affected: u64) -> (r: bool)
    ensures
        r == (rows_affected != 1),
{
    rows_affected != 1
}

/// Whether a listed stock must be inserted: no row holds it yet.
pub fn stock_needs_insert(count: i64) -> (r: bool)
    ensures
        r == (count == 0),
{
    count == 0
}

/// How inserting a day's pattern record ended.
#[derive(Clone, Debug, PartialEq, Eq)]
pub enum IndicatorInsert {
    /// The record was inserted.
    Inserted,
    /// A record for the same stock, adjustment and day exists.
    UniqueViolation,
    /// The insert failed otherwise, with the failure's text.
    Failed(String),
}

/// What to do after inserting a day's pattern record.
#[derive(Clone, Debug, PartialEq, Eq)]
pub enum IndicatorSaveStep {
    /// The record is saved.
    Done,
    /// Update the existing record instead.
    Update,
    /// Give up with this error.
    Fail(SysError),
}

/// The step after inserting a day's pattern record: done when inserted,
/// an update when the record exists, else the failure.
pub fn after_indicator_insert(outcome: IndicatorInsert) -> (step: IndicatorSaveStep)
    ensures
        match outcome {
            IndicatorInsert::Inserted => step == IndicatorSaveStep::Done,
            IndicatorInsert::UniqueViolation => step == IndicatorSaveStep::Update,
            IndicatorInsert::Failed(m) => step == IndicatorSaveStep::Fail(SysError::SqlxError(m)),
        },
{
    match outcome {
        IndicatorInsert::Inserted => IndicatorSaveStep::Done,
        IndicatorInsert::UniqueViolation => IndicatorSaveStep::Update,
        IndicatorInsert::Failed(m) => IndicatorSaveStep::Fail(SysError::SqlxError(m)),
    }
}

/// The outcome of updating an existing pattern record: it must change
/// exactly one row.
pub fn after_indicator_update(rows_affected: u64) -> (r: Result<(), SysError>)
    ensures
        rows_affected == 1 ==> r is Ok,
        rows_affected != 1 ==> (r matches Err(SysError::Anyhow(m)) && m@ == "error"@),
{
    if rows_affected != 1 {
        Err(SysError::Anyhow("error".to_owned()))
    } else {
        Ok(())
    }
}

/// Each per-market part of the stock search ends in `limit ` followed by
/// digits that read back as the requested limit, then `) `: the search
/// takes at most `limit` stocks of market `x` whose symbol or name holds `q`.
pub proof fn lemma_fuzzy_select_limit(q: Seq<char>, x: Seq<char>, limit: u8)
    ensures
        exists|d: Seq<char>|
            fuzzy_select(q, x, limit) == "select * from (select * from cn_stock_basic where (symbol like  '%"@
                + q + "%' OR  name like '%"@ + q + "%') and market = '"@ + x
                + "' order by symbol asc limit "@ + d + ") "@ && all_digits(d) && digits_value(d)
                == limit,
{
    lemma_decimal_reads_back(limit as nat);
    let d = decimal(limit as nat);
    assert(fuzzy_select(q, x, limit) == "select * from (select * from cn_stock_basic where (symbol like  '%"@
        + q + "%' OR  name like '%"@ + q + "%') and market = '"@ + x
        + "' order by symbol asc limit "@ + d + ") "@);
}

/// The search over one market is that market's part alone, and the search
/// over a list of markets is the search over all but the last, ` UNION `,
/// and the last market's part.
pub proof fn lemma_fuzzy_sql_parts(q: Seq<char>, markets: Seq<Seq<char>>, limit: u8)
    ensures
        markets.len() == 1 ==> fuzzy_sql(q, markets, limit) == fuzzy_select(q, markets[0], limit),
        markets.len() >= 2 ==> fuzzy_sql(q, markets, limit) == fuzzy_sql(
            q,
            markets.drop_last(),
            limit,
        ) + " UNION "@ + fuzzy_select(q, markets.last(), limit),
{
    let parts = markets.map_values(|m: Seq<char>| fuzzy_select(q, m, limit));
    if markets.len() >= 2 {
        assert(parts.drop_last() =~= markets.drop_last().map_values(
            |m: Seq<char>| fuzzy_select(q, m, limit),
        ));
    }
}

/// Whether `t` occurs in `s`.
pub open spec fn contains_text(s: Seq<char>, t: Seq<char>) -> bool {
    exists|p: Seq<char>, r: Seq<char>| s == p + t + r
}

/// The schema set-up makes each record table unique on the key by which its
/// records are read and written: the crawl records on symbol, market and
/// adjustment; the pattern records on symbol, market, adjustment and day;
/// the trading calendar on the day; listed stocks on symbol and deletion
/// flag; followed stocks on symbol and market.
pub proof fn lemma_migration_unique_keys()
    ensures
        migration_plan().len() == 10,
        contains_text(migration_plan()[1].0, "UNIQUE INDEX"@),
        contains_text(migration_plan()[1].0, " ON cn_stock_calendar(date);"@),
        contains_text(migration_plan()[3].0, "UNIQUE INDEX"@),
        contains_text(migration_plan()[3].0, " ON cn_stock_basic(symbol, is_delete);"@),
        contains_text(migration_plan()[5].0, "UNIQUE INDEX"@),
        contains_text(migration_plan()[5].0, " ON user_stock_follow(symbol, market);"@),
        contains_text(migration_plan()[7].0, "UNIQUE INDEX"@),
        contains_text(
            migration_plan()[7].0,
            " ON cn_stock_hist_crawl_log(symbol, market, adjust);"@,
        ),
        contains_text(migration_plan()[9].0, "UNIQUE INDEX"@),
        contains_text(
            migration_plan()[9].0,
            " ON cn_stock_indicators(symbol, market, adjust, date);"@,
        ),
{
    let plan = migration_plan();
    let ui = "UNIQUE INDEX"@;
    reveal_strlit("UNIQUE INDEX");

    let s1 = "CREATE UNIQUE INDEX IF NOT EXISTS unq_date ON cn_stock_calendar(date);"@;
    reveal_strlit("CREATE UNIQUE INDEX IF NOT EXISTS unq_date ON cn_stock_calendar(date);");
    reveal_strlit(" ON cn_stock_calendar(date);");
    reveal_strlit("CREATE ");
    reveal_strlit(" IF NOT EXISTS unq_date ON cn_stock_calendar(date);");
    reveal_strlit("CREATE UNIQUE INDEX IF NOT EXISTS unq_date");
    assert(s1 =~= "CREATE "@ + ui + " IF NOT EXISTS unq_date ON cn_stock_calendar(date);"@);
    assert(s1 =~= "CREATE UNIQUE INDEX IF NOT EXISTS unq_date"@ + " ON cn_stock_calendar(date);"@
        + Seq::<char>::empty());

    let s3 = "CREATE UNIQUE INDEX IF NOT EXISTS unq_symbol ON cn_stock_basic(symbol, is_delete);"@;
    reveal_strlit("CREATE UNIQUE INDEX IF NOT EXISTS unq_symbol ON cn_stock_basic(symbol, is_delete);");
    reveal_strlit(" ON cn_stock_basic(symbol, is_delete);");
    reveal_strlit(" IF NOT EXISTS unq_symbol ON cn_stock_basic(symbol, is_delete);");
    reveal_strlit("CREATE UNIQUE INDEX IF NOT EXISTS unq_symbol");
    assert(s3 =~= "CREATE "@ + ui + " IF NOT EXISTS unq_symbol ON cn_stock_basic(symbol, is_delete);"@);
    assert(s3 =~= "CREATE UNIQUE INDEX IF NOT EXISTS unq_symbol"@ + " ON cn_stock_basic(symbol, is_delete);"@
        + Seq::<char>::empty());

    let s5 = "CREATE UNIQUE INDEX IF NOT EXISTS unq_symbol ON user_stock_follow(symbol, market);"@;
    reveal_strlit("CREATE UNIQUE INDEX IF NOT EXISTS unq_symbol ON user_stock_follow(symbol, market);");
    reveal_strlit(" ON user_stock_follow(symbol, market);");
    reveal_strlit(" IF NOT EXISTS unq_symbol ON user_stock_follow(symbol, market);");
    assert(s5 =~= "CREATE "@ + ui + " IF NOT EXISTS unq_symbol ON user_stock_follow(symbol, market);"@);
    assert(s5 =~= "CREATE UNIQUE INDEX IF NOT EXISTS unq_symbol"@ + " ON user_stock_follow(symbol, market);"@
        + Seq::<char>::empty());

    let s7 = "\n    CREATE UNIQUE INDEX IF NOT EXISTS unq_symbol_market_adjust ON cn_stock_hist_crawl_log(symbol, market, adjust);\n    "@;
    reveal_strlit("\n    CREATE UNIQUE INDEX IF NOT EXISTS unq_symbol_market_adjust ON cn_stock_hist_crawl_log(symbol, market, adjust);\n    ");
    reveal_strlit(" ON cn_stock_hist_crawl_log(symbol, market, adjust);");
    reveal_strlit("\n    CREATE ");
    reveal_strlit(" IF NOT EXISTS unq_symbol_market_adjust ON cn_stock_hist_crawl_log(symbol, market, adjust);\n    ");
    reveal_strlit("\n    CREATE UNIQUE INDEX IF NOT EXISTS unq_symbol_market_adjust");
    reveal_strlit("\n    ");
    assert(s7 =~= "\n    CREATE "@ + ui
        + " IF NOT EXISTS unq_symbol_market_adjust ON cn_stock_hist_crawl_log(symbol, market, adjust);\n    "@);
    assert(s7 =~= "\n    CREATE UNIQUE INDEX IF NOT EXISTS unq_symbol_market_adjust"@
        + " ON cn_stock_hist_crawl_log(symbol, market, adjust);"@ + "\n    "@);

    let s9 = "\n    CREATE UNIQUE INDEX IF NOT EXISTS unq_symbol_market_adjust_date ON cn_stock_indicators(symbol, market, adjust, date);\n    "@;
    reveal_strlit("\n    CREATE UNIQUE INDEX IF NOT EXISTS unq_symbol_market_adjust_date ON cn_stock_indicators(symbol, market, adjust, date);\n    ");
    reveal_strlit(" ON cn_stock_indicators(symbol, market, adjust, date);");
    reveal_strlit(" IF NOT EXISTS unq_symbol_market_adjust_date ON cn_stock_indicators(symbol, market, adjust, date);\n    ");
    reveal_strlit("\n    CREATE UNIQUE INDEX IF NOT EXISTS unq_symbol_market_adjust_date");
    assert(s9 =~= "\n    CREATE "@ + ui
        + " IF NOT EXISTS unq_symbol_market_adjust_date ON cn_stock_indicators(symbol, market, adjust, date);\n    "@);
    assert(s9 =~= "\n    CREATE UNIQUE INDEX IF NOT EXISTS unq_symbol_market_adjust_date"@
        + " ON cn_stock_indicators(symbol, market, adjust, date);"@ + "\n    "@);
}

} // verus!
