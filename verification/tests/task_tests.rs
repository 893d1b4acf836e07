use mystock::calendar::Date;
use mystock::error::SysError;
use mystock::task::{check_job_dates, JobStep, KlinePatternJob};

#[test]
fn empty_history_stops_the_job() {
    assert_eq!(
        check_job_dates(0, Date { days: 739_221 }, Date { days: 739_222 }),
        Err(SysError::Anyhow("没有股票行情数据,date: 2024-12-01 - 2024-12-02".to_string()))
    );
    assert_eq!(check_job_dates(3, Date { days: 739_221 }, Date { days: 739_222 }), Ok(()));
}

#[test]
fn job_bookkeeping() {
    let mut one = KlinePatternJob::new(1);
    assert_eq!(one.record(Date { days: 10 }, true), JobStep::Continue);
    assert_eq!(one.saved, vec![Date { days: 10 }]);

    let failed = JobStep::Fail(SysError::Anyhow("system error! 部分指标数据入库失败！请重新执行".to_string()));
    let mut lost = KlinePatternJob::new(1);
    assert_eq!(lost.record(Date { days: 10 }, false), failed);
    assert!(lost.saved.is_empty());

    // The count is compared after every day, so a job of two days stops
    // after storing the first.
    let mut two = KlinePatternJob::new(2);
    assert_eq!(two.record(Date { days: 10 }, true), failed);
}
