use mystock::calendar::{
    check_crawl_by_time, check_crawl_by_time_at, date_from_ymd, date_to_string,
    get_default_end_date, get_default_end_date_at, local_now, parse_compact_date, Date, DateTime,
};

fn at(days: i32, secs: u32) -> DateTime {
    DateTime { date: Date { days }, secs, nanos: 0 }
}

#[test]
fn day_numbers_follow_the_proleptic_calendar() {
    assert_eq!(date_from_ymd(1970, 1, 1), Some(Date { days: 719_163 }));
    assert_eq!(date_from_ymd(1, 1, 1), Some(Date { days: 1 }));
    assert_eq!(date_from_ymd(0, 1, 1), Some(Date { days: -365 }));
    assert_eq!(date_from_ymd(2099, 12, 31), Some(Date { days: 766_644 }));
    assert_eq!(date_from_ymd(2024, 2, 29), Some(Date { days: 738_945 }));
    assert_eq!(date_from_ymd(2023, 2, 29), None);
    assert_eq!(date_from_ymd(2023, 13, 1), None);
    assert_eq!(date_from_ymd(400_000, 1, 1), None);
}

#[test]
fn compact_dates_parse_and_print() {
    assert_eq!(parse_compact_date("19700101"), Ok(Date { days: 719_163 }));
    assert_eq!(parse_compact_date("20991231"), Ok(Date { days: 766_644 }));
    assert!(parse_compact_date("1970-01-01").is_err());
    assert_eq!(date_to_string(Date { days: 719_163 }), "1970-01-01");
    assert_eq!(date_to_string(Date { days: 766_644 }), "2099-12-31");
}

#[test]
fn crawl_after_todays_close_is_fresh_in_the_evening() {
    let day = 739_222; // 2024-12-02
    let now = at(day, 16 * 3600);
    assert!(!check_crawl_by_time_at(at(day, 15 * 3600 + 1), now));
    assert!(check_crawl_by_time_at(at(day, 15 * 3600), now));
    assert!(check_crawl_by_time_at(at(day, 9 * 3600), now));
}

#[test]
fn crawl_after_yesterdays_close_is_fresh_in_the_morning() {
    let day = 739_222;
    let now = at(day, 10 * 3600);
    assert!(!check_crawl_by_time_at(at(day - 1, 15 * 3600 + 60), now));
    assert!(!check_crawl_by_time_at(at(day, 9 * 3600), now));
    assert!(check_crawl_by_time_at(at(day - 1, 14 * 3600), now));
    let mut exactly_close = at(day - 1, 15 * 3600);
    assert!(check_crawl_by_time_at(exactly_close, now));
    exactly_close.nanos = 1;
    assert!(!check_crawl_by_time_at(exactly_close, now));
}

#[test]
fn default_end_date_is_the_day_of_the_last_close() {
    let day = 739_222;
    assert_eq!(get_default_end_date_at(at(day, 10 * 3600)), Date { days: day - 1 });
    assert_eq!(get_default_end_date_at(at(day, 15 * 3600)), Date { days: day });
    assert_eq!(get_default_end_date_at(at(day, 23 * 3600)), Date { days: day });
}

#[test]
fn the_two_clock_rules_agree() {
    // Crawled exactly at the close of the default end date: due again.
    for secs in [0u32, 9 * 3600, 15 * 3600, 20 * 3600] {
        let now = at(739_222, secs);
        let end = get_default_end_date_at(now);
        assert!(check_crawl_by_time_at(at(end.days, 15 * 3600), now));
        assert!(!check_crawl_by_time_at(at(end.days, 15 * 3600 + 1), now));
    }
}

#[test]
fn the_clock_reads_a_day_after_the_epoch() {
    let now = local_now();
    assert!(now.date.days >= 719_162);
    assert!(now.secs < 86_400);
    assert!(check_crawl_by_time(at(1, 0)));
    assert!(get_default_end_date().days >= 719_161);
}
