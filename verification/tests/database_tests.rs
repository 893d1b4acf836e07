use mystock::calendar::Date;
use mystock::database::{
    after_indicator_insert, after_indicator_update, calendar_needs_seed, chunk_lines,
    crawl_log_needs_insert, crawl_log_query, crawl_log_range, fuzzy_query_sql, migration_steps,
    stock_needs_insert, IndicatorInsert, IndicatorSaveStep,
};
use mystock::error::SysError;

#[test]
fn crawl_log_statement() {
    assert_eq!(
        crawl_log_query("000004", "sz", "hfq"),
        "select * from cn_stock_hist_crawl_log where symbol = '000004' and market = 'sz' and adjust = 'hfq'"
    );
}

#[test]
fn fuzzy_statement() {
    let sql = fuzzy_query_sql("600", &vec!["sh".to_string(), "sz".to_string()], 3);
    assert_eq!(
        sql,
        "select * from (select * from cn_stock_basic where (symbol like  '%600%' OR  name like '%600%') and market = 'sh' order by symbol asc limit 3)  UNION select * from (select * from cn_stock_basic where (symbol like  '%600%' OR  name like '%600%') and market = 'sz' order by symbol asc limit 3) "
    );
    assert_eq!(fuzzy_query_sql("x", &vec![], 10), "");
}

#[test]
fn seed_chunks() {
    let lines: Vec<String> = (0..250).map(|i| format!("insert {i}")).collect();
    let chunks = chunk_lines(&lines, 100);
    assert_eq!(chunks.iter().map(|c| c.len()).collect::<Vec<_>>(), vec![100, 100, 50]);
    assert_eq!(chunks.concat(), lines);
    assert!(chunk_lines(&vec![], 100).is_empty());
    assert_eq!(chunk_lines(&lines[..100].to_vec(), 100).len(), 1);
}

#[test]
fn schema_steps() {
    let steps = migration_steps();
    assert_eq!(steps.len(), 10);
    assert!(steps[0].0.contains("CREATE TABLE IF NOT EXISTS cn_stock_calendar"));
    assert_eq!(steps[0].1, "Error while executing migration. create table `cn_stock_calendar`");
    assert_eq!(steps[1].0, "CREATE UNIQUE INDEX IF NOT EXISTS unq_date ON cn_stock_calendar(date);");
    assert_eq!(steps[4].1, "Error while executing migration. create table `cn_stock_basic`");
    assert!(steps[9].0.contains("unq_symbol_market_adjust_date"));
    assert!(calendar_needs_seed(0));
    assert!(!calendar_needs_seed(12));
}

#[test]
fn crawl_log_days() {
    assert_eq!(
        crawl_log_range("19700101", "20991231"),
        Ok((Date { days: 719_163 }, Date { days: 766_644 }))
    );
    assert!(matches!(crawl_log_range("1970", "20991231"), Err(SysError::Anyhow(_))));
    assert!(matches!(crawl_log_range("19700101", "nope"), Err(SysError::Anyhow(_))));
    assert!(crawl_log_needs_insert(0));
    assert!(!crawl_log_needs_insert(1));
    assert!(crawl_log_needs_insert(2));
}

#[test]
fn save_decisions() {
    assert!(stock_needs_insert(0));
    assert!(!stock_needs_insert(1));
    assert_eq!(after_indicator_insert(IndicatorInsert::Inserted), IndicatorSaveStep::Done);
    assert_eq!(after_indicator_insert(IndicatorInsert::UniqueViolation), IndicatorSaveStep::Update);
    assert_eq!(
        after_indicator_insert(IndicatorInsert::Failed("locked".to_string())),
        IndicatorSaveStep::Fail(SysError::SqlxError("locked".to_string()))
    );
    assert_eq!(after_indicator_update(1), Ok(()));
    assert_eq!(after_indicator_update(0), Err(SysError::Anyhow("error".to_string())));
}
