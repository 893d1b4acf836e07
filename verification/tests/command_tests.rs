use mystock::calendar::{Date, DateTime};
use mystock::model::{StockHistCrawlLog, StockIndicator};
use mystock::commands::{
    attach_kp_indicators, fetch_remote, fuzzy_query_request, global_channel_action, greet,
    indicator_query_range, kline_channel_action, market_for_symbol, parquet_file_name,
    plan_kline_hist, sidecar_action, sidecar_reply, stock_list_request, ChannelAction,
    PayloadKind, SearchParams, SidecarAction, SidecarEvent,
};

fn log(crawl_time: DateTime) -> StockHistCrawlLog {
    StockHistCrawlLog {
        symbol: "600000".to_string(),
        market: "sh".to_string(),
        adjust: "hfq".to_string(),
        start_date: Date { days: 719_163 },
        end_date: Date { days: 766_644 },
        crawl_time,
    }
}

fn ind(days: i32, text: &str) -> StockIndicator {
    let t = DateTime { date: Date { days }, secs: 0, nanos: 0 };
    StockIndicator {
        symbol: "000004".to_string(),
        market: "sz".to_string(),
        adjust: "hfq".to_string(),
        date: Date { days },
        kline_indicator: text.to_string(),
        is_kline_special: false,
        modify_time: t,
        create_time: t,
    }
}

#[test]
fn greeting() {
    assert_eq!(greet("niko"), "Hello, niko! You've been greeted from Rust!");
}

#[test]
fn file_names() {
    assert_eq!(parquet_file_name("000004", "sz", "hfq"), "000004_sz_hfq.parquet");
}

#[test]
fn history_plan() {
    let end = Date { days: 739_222 };
    let p = plan_kline_hist("000004", "sz", None, Some(end), &None);
    assert_eq!(p.adjust, "qfq");
    assert_eq!(p.end_date, end);
    assert_eq!(p.file_name, "000004_sz_qfq.parquet");
    assert!(p.to_crawl);
    let old = DateTime { date: Date { days: 700_000 }, secs: 0, nanos: 0 };
    let q = plan_kline_hist("600000", "sh", Some("hfq".to_string()), None, &Some(log(old)));
    assert_eq!(q.file_name, "600000_sh_hfq.parquet");
    assert!(q.to_crawl);
    assert!(q.end_date.days >= 719_161);
    let future = DateTime { date: Date { days: 3_000_000 }, secs: 0, nanos: 0 };
    let r = plan_kline_hist("600000", "sh", None, None, &Some(log(future)));
    assert!(!r.to_crawl);
    assert!(fetch_remote(true, true));
    assert!(fetch_remote(false, false));
    assert!(!fetch_remote(false, true));
}

#[test]
fn indicator_days() {
    assert_eq!(
        indicator_query_range(None, None),
        (Date { days: 719_163 }, Date { days: 766_644 })
    );
    let a = Date { days: 5 };
    assert_eq!(indicator_query_range(Some(a), None), (a, Date { days: 766_644 }));
}

#[test]
fn attaching_pattern_records() {
    let dates = vec![Date { days: 1 }, Date { days: 2 }, Date { days: 3 }];
    let current = vec![None, Some("old".to_string()), None];
    let records = vec![
        ind(2, "{\"a\":0}"),
        ind(3, "{\"b\":1}"),
        ind(2, "{\"a\":1}"),
        ind(9, "x"),
    ];
    let r = attach_kp_indicators(&dates, current, &records);
    assert_eq!(
        r,
        vec![None, Some("{\"a\":1}".to_string()), Some("{\"b\":1}".to_string())]
    );
}

#[test]
fn routing() {
    assert_eq!(market_for_symbol("600000"), 1);
    assert_eq!(market_for_symbol("000004"), 0);
    assert_eq!(market_for_symbol(""), 0);
    assert_eq!(kline_channel_action(PayloadKind::KLineRT), ChannelAction::Emit);
    assert_eq!(kline_channel_action(PayloadKind::CloseChannel), ChannelAction::Close);
    assert_eq!(kline_channel_action(PayloadKind::Dashboard), ChannelAction::Ignore);
    assert_eq!(global_channel_action(PayloadKind::Dashboard), ChannelAction::Emit);
    assert_eq!(global_channel_action(PayloadKind::CloseChannel), ChannelAction::Ignore);
    assert_eq!(sidecar_action(SidecarEvent::Stdout), SidecarAction::PrintAndReply);
    assert_eq!(sidecar_action(SidecarEvent::Stderr), SidecarAction::Print);
    assert_eq!(sidecar_action(SidecarEvent::Other), SidecarAction::Ignore);
    assert_eq!(sidecar_reply(), "message from Rust\n");
}

#[test]
fn searches() {
    let f = fuzzy_query_request("600".to_string(), None);
    assert_eq!(f.q, "600");
    assert_eq!(f.markets, vec!["sh", "sz"]);
    assert_eq!(f.limit, 3);
    let g = fuzzy_query_request("x".to_string(), Some(vec!["sz".to_string()]));
    assert_eq!(g.markets, vec!["sz"]);
    let s = stock_list_request(&SearchParams { symbol: None, market: None, follow_only: false });
    assert_eq!(s.q, "6");
    assert_eq!(s.limit, 10);
    assert_eq!(s.markets, vec!["sh", "sz"]);
    let t = stock_list_request(&SearchParams {
        symbol: Some("0000".to_string()),
        market: Some("sz".to_string()),
        follow_only: true,
    });
    assert_eq!(t.q, "0000");
}
