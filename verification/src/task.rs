//! The bookkeeping of the background job that checks a stock's history for
//! candlestick patterns day by day and stores what it finds.

use vstd::prelude::*;
use crate::calendar::{Date, date_display, date_to_string};
use crate::error::SysError;

verus! {

/// The message of a job that found no history between `start` and `end`.
pub open spec fn no_data_message(start: Date, end: Date) -> Seq<char> {
    "没有股票行情数据,date: "@ + date_display(start.days as int) + " - "@ + date_display(
        end.days as int,
    )
}

/// Whether the job has days to check: it stops with an error when the
/// history holds no day between `start` and `end`.
pub fn check_job_dates(count: usize, start: Date, end: Date) -> (r: Result<(), SysError>)
    requires
        start.wf(),
        end.wf(),
    ensures
        count > 0 ==> r is Ok,
        count == 0 ==> (r matches Err(SysError::Anyhow(m)) && m@ == no_data_message(start, end)),
{
    if count == 0 {
        let mut s = "没有股票行情数据,date: ".to_owned();
        let a = date_to_string(start);
        let b = date_to_string(end);
        s.append(a.as_str());
        s.append(" - ");
        s.append(b.as_str());
        Err(SysError::Anyhow(s))
    } else {
        Ok(())
    }
}

/// The progress of a job: how many checked days it must store, and the
/// days stored so far, in order.
#[derive(Clone, Debug, PartialEq, Eq)]
pub struct KlinePatternJob {
    pub total: usize,
    pub saved: Vec<Date>,
}

/// What the job does after storing a day.
#[derive(Clone, Debug, PartialEq, Eq)]
pub enum JobStep {
    /// Go on with the next day.
    Continue,
    /// Stop with this error.
    Fail(SysError),
}

impl KlinePatternJob {
    /// A job that must store `total` checked days and has stored none.
    pub fn new(total: usize) -> (j: KlinePatternJob)
        ensures
            j.total == total,
            j.saved@.len() == 0,
    {
        KlinePatternJob { total, saved: Vec::new() }
    }

    /// Records whether storing `day` succeeded. The job goes on only while
    /// the number of days stored equals the number it must store; otherwise
    /// it stops, asking for the job to be run again.
    pub fn record(&mut self, day: Date, saved_ok: bool) -> (step: JobStep)
        requires
            old(self).saved@.len() < usize::MAX,
        ensures
            final(self).total == old(self).total,
            final(self).saved@ == (if saved_ok {
                old(self).saved@.push(day)
            } else {
                old(self).saved@
            }),
            final(self).saved@.len() == final(self).total ==> step == JobStep::Continue,
            final(self).saved@.len() != final(self).total ==> (step matches JobStep::Fail(
                SysError::Anyhow(m),
            ) && m@ == "system error! 部分指标数据入库失败！请重新执行"@),
    {
        if saved_ok {
            self.saved.push(day);
        }
        if self.saved.len() != self.total {
            JobStep::Fail(SysError::Anyhow("system error! 部分指标数据入库失败！请重新执行".to_owned()))
        } else {
            JobStep::Continue
        }
    }
}

} // verus!
