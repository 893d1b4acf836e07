use mystock::error::SysError;
use mystock::crawl::{
    default_market, est_stock_list, hist_query, hist_row_texts, publish_date_from_number, sh_stock_list_query,
    sz_stock_list_query, EstStockBasic,
};

fn pairs(v: Vec<(String, String)>) -> Vec<(String, String)> {
    v
}

fn p(k: &str, v: &str) -> (String, String) {
    (k.to_string(), v.to_string())
}

#[test]
fn listing_dates() {
    assert_eq!(publish_date_from_number(Some(20241212)), Some("2024-12-12".to_string()));
    assert_eq!(publish_date_from_number(Some(19910403)), Some("1991-04-03".to_string()));
    assert_eq!(publish_date_from_number(Some(123456789)), Some("1234-56-78".to_string()));
    assert_eq!(publish_date_from_number(Some(-1234567)), Some("-123-45-67".to_string()));
    assert_eq!(publish_date_from_number(None), None);
}

#[test]
fn market_default() {
    assert_eq!(default_market(), "sh");
}

#[test]
fn stock_list_merges_both_exchanges() {
    let sh = vec![EstStockBasic {
        symbol: "600000".to_string(),
        name: "浦发银行".to_string(),
        market: "sh".to_string(),
        publish_date: Some("1999-11-10".to_string()),
    }];
    let sz = vec![EstStockBasic {
        symbol: "000004".to_string(),
        name: "国华网安".to_string(),
        market: "sh".to_string(),
        publish_date: None,
    }];
    let list = est_stock_list(&sh, &sz);
    assert_eq!(list.len(), 2);
    assert_eq!(list[0].symbol, "600000");
    assert_eq!(list[0].market, "sh");
    assert_eq!(list[0].publish_date, Some("1999-11-10".to_string()));
    assert_eq!(list[1].symbol, "000004");
    assert_eq!(list[1].name, "国华网安");
    assert_eq!(list[1].market, "sz");
    assert!(!list[0].is_delete && !list[1].is_delete);
}

#[test]
fn stock_list_queries() {
    let sh = pairs(sh_stock_list_query("1700000000000"));
    assert_eq!(sh.len(), 11);
    assert_eq!(sh[0], p("pn", "1"));
    assert_eq!(sh[1], p("pz", "50000"));
    assert_eq!(sh[8], p("fs", "m:1 t:2,m:1 t:23"));
    assert_eq!(sh[9], p("fields", "f12,f14,f26"));
    assert_eq!(sh[10], p("_", "1700000000000"));
    let sz = sz_stock_list_query("5");
    assert_eq!(sz[8], p("fs", "m:0 t:6,m:0 t:80"));
}

#[test]
fn history_query() {
    let q = hist_query("000004", "daily", "19700101", "20500101", "sz", "hfq", "42");
    assert_eq!(
        q,
        vec![
            p("fields1", "f1,f2,f3,f4,f5,f6"),
            p("fields2", "f51,f52,f53,f54,f55,f56,f57,f58,f59,f60,f61,f116"),
            p("ut", "7eea3edcaed734bea9cbfc24409ed989"),
            p("klt", "101"),
            p("fqt", "2"),
            p("secid", "0.000004"),
            p("beg", "19700101"),
            p("end", "20500101"),
            p("_", "42"),
        ]
    );
    let w = hist_query("600000", "weekly", "a", "b", "sh", "qfq", "t");
    assert_eq!(w[3], p("klt", "102"));
    assert_eq!(w[4], p("fqt", "1"));
    assert_eq!(w[5], p("secid", "1.600000"));
    let m = hist_query("600000", "monthly", "a", "b", "SSE", "", "t");
    assert_eq!(m[3], p("klt", "103"));
    assert_eq!(m[4], p("fqt", "0"));
    assert_eq!(m[5], p("secid", "1.600000"));
    let other = hist_query("1", "hourly", "a", "b", "sz", "x", "t");
    assert_eq!(other[3], p("klt", "101"));
}

#[test]
fn history_row_texts() {
    let s = |x: &str| Some(x.to_string());
    assert_eq!(
        hist_row_texts(s("000004"), s("sz"), s("国华网安")),
        Ok(("000004".to_string(), "sz".to_string(), "国华网安".to_string()))
    );
    assert_eq!(
        hist_row_texts(None, None, None),
        Err(SysError::Anyhow("`symbol` parse failed!".to_string()))
    );
    assert_eq!(
        hist_row_texts(s("a"), None, None),
        Err(SysError::Anyhow("`market` parse failed!".to_string()))
    );
    assert_eq!(
        hist_row_texts(s("a"), s("b"), None),
        Err(SysError::Anyhow("`name` parse failed!".to_string()))
    );
}
