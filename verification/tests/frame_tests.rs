use mystock::calendar::Date;
use mystock::error::SysError;
use mystock::frame::{check_kline_window, rows_in_range};

fn d(days: i32) -> Option<Date> {
    Some(Date { days })
}

#[test]
fn rows_between_bounds() {
    let dates = vec![d(10), None, d(12), d(15), d(11)];
    assert_eq!(rows_in_range(&dates, None, None), vec![0, 2, 3, 4]);
    assert_eq!(rows_in_range(&dates, Some(Date { days: 11 }), None), vec![2, 3, 4]);
    assert_eq!(rows_in_range(&dates, None, Some(Date { days: 12 })), vec![0, 2, 4]);
    assert_eq!(
        rows_in_range(&dates, Some(Date { days: 11 }), Some(Date { days: 12 })),
        vec![2, 4]
    );
    assert_eq!(rows_in_range(&dates, Some(Date { days: 20 }), None), Vec::<usize>::new());
}

#[test]
fn window_of_fourteen() {
    let dates: Vec<Option<Date>> = (0..20).map(|i| d(100 + i)).collect();
    let w = check_kline_window(&dates, Date { days: 117 }).unwrap();
    assert_eq!(w, (4..18).collect::<Vec<usize>>());
    let short = check_kline_window(&dates, Date { days: 112 });
    assert_eq!(
        short,
        Err(SysError::BREAK(1001, "缺少必要参数,无法继续执行!".to_string()))
    );
    assert_eq!(check_kline_window(&dates, Date { days: 113 }).unwrap(), (0..14).collect::<Vec<usize>>());
}
