//! Choosing rows of a market-history table by their dates. A table's date
//! column is a list of optional days; a missing day never matches a date
//! condition, as in the table engine's filters.

use vstd::prelude::*;
use crate::calendar::Date;
use crate::error::SysError;

verus! {

/// The number of trading days a pattern check looks at.
pub const CHECK_WINDOW: usize = 14;

/// Whether a row's day lies between the optional bounds, both included.
pub open spec fn in_range(d: Option<Date>, start: Option<Date>, end: Option<Date>) -> bool {
    match d {
        Some(day) => {
            &&& (start matches Some(s) ==> s.days <= day.days)
            &&& (end matches Some(e) ==> day.days <= e.days)
        },
        None => false,
    }
}

/// The positions, in increasing order, of the first `n` rows whose day lies
/// between the bounds.
pub open spec fn selected_rows(
    dates: Seq<Option<Date>>,
    n: nat,
    start: Option<Date>,
    end: Option<Date>,
) -> Seq<usize>
    decreases n,
{
    if n == 0 {
        Seq::<usize>::empty()
    } else {
        let before = selected_rows(dates, (n - 1) as nat, start, end);
        if in_range(dates[n - 1], start, end) {
            before.push((n - 1) as usize)
        } else {
            before
        }
    }
}

/// The positions of the rows whose day lies between the bounds, in order,
/// as filtering the table on `date >= start` and `date <= end` keeps them.
pub fn rows_in_range(dates: &Vec<Option<Date>>, start: Option<Date>, end: Option<Date>) -> (rows:
    Vec<usize>)
    ensures
        rows@ == selected_rows(dates@, dates@.len(), start, end),
{
    let mut rows: Vec<usize> = Vec::new();
    let mut i: usize = 0;
    while i < dates.len()
        invariant
            i <= dates.len(),
            rows@ == selected_rows(dates@, i as nat, start, end),
        decreases dates.len() - i,
    {
        let keep = match dates[i] {
            Some(day) => {
                let after_start = match start {
                    Some(s) => s.days <= day.days,
                    None => true,
                };
                let before_end = match end {
                    Some(e) => day.days <= e.days,
                    None => true,
                };
                after_start && before_end
            },
            None => false,
        };
        if keep {
            rows.push(i);
        }
        i = i + 1;
    }
    rows
}

/// The positions of the last fourteen rows dated on or before `check_date`,
/// in order; fewer than fourteen such rows stop the check with code 1001.
pub fn check_kline_window(dates: &Vec<Option<Date>>, check_date: Date) -> (r: Result<
    Vec<usize>,
    SysError,
>)
    ensures
        ({
            let all = selected_rows(dates@, dates@.len(), None, Some(check_date));
            if all.len() >= 14 {
                r matches Ok(w) && w@ == all.subrange(all.len() - 14, all.len() as int)
            } else {
                r matches Err(SysError::BREAK(code, m)) && code == 1001 && m@
                    == "缺少必要参数,无法继续执行!"@
            }
        }),
{
    let all = rows_in_range(dates, None, Some(check_date));
    if all.len() < CHECK_WINDOW {
        return Err(SysError::BREAK(1001, "缺少必要参数,无法继续执行!".to_owned()));
    }
    let mut w: Vec<usize> = Vec::new();
    let from = all.len() - CHECK_WINDOW;
    let mut i = from;
    while i < all.len()
        invariant
            from == all@.len() - 14,
            from <= i <= all@.len(),
            w@ == all@.subrange(from as int, i as int),
        decreases all.len() - i,
    {
        w.push(all[i]);
        assert(w@ =~= all@.subrange(from as int, i + 1));
        i = i + 1;
    }
    Ok(w)
}

/// The selected positions are in increasing order, each names a row whose
/// day lies between the bounds, and every such row is selected: the
/// selection is exactly the matching rows.
pub proof fn lemma_selected_rows_exact(
    dates: Seq<Option<Date>>,
    n: nat,
    start: Option<Date>,
    end: Option<Date>,
)
    requires
        n <= dates.len(),
        dates.len() <= usize::MAX,
    ensures
        forall|k: int|
            #![trigger selected_rows(dates, n, start, end)[k]]
            0 <= k < selected_rows(dates, n, start, end).len() ==> 0
                <= selected_rows(dates, n, start, end)[k] < n && in_range(
                dates[selected_rows(dates, n, start, end)[k] as int],
                start,
                end,
            ),
        forall|k1: int, k2: int|
            0 <= k1 < k2 < selected_rows(dates, n, start, end).len() ==> selected_rows(
                dates,
                n,
                start,
                end,
            )[k1] < selected_rows(dates, n, start, end)[k2],
        forall|i: int|
            0 <= i < n && in_range(dates[i], start, end) ==> selected_rows(
                dates,
                n,
                start,
                end,
            ).contains(i as usize),
    decreases n,
{
    if n > 0 {
        lemma_selected_rows_exact(dates, (n - 1) as nat, start, end);
        let before = selected_rows(dates, (n - 1) as nat, start, end);
        let now = selected_rows(dates, n, start, end);
        if in_range(dates[n - 1], start, end) {
            assert(now == before.push((n - 1) as usize));
            assert forall|k: int| 0 <= k < now.len() implies 0 <= now[k] < n && in_range(
                dates[now[k] as int],
                start,
                end,
            ) by {
                if k < before.len() {
                    assert(now[k] == before[k]);
                }
            }
            assert forall|k1: int, k2: int| 0 <= k1 < k2 < now.len() implies now[k1]
                < now[k2] by {
                assert(now[k1] == before[k1]);
                if k2 < before.len() {
                    assert(now[k2] == before[k2]);
                }
            }
            assert forall|i: int|
                0 <= i < n && in_range(dates[i], start, end) implies now.contains(
                i as usize,
            ) by {
                if i < n - 1 {
                    let k = choose|k: int| 0 <= k < before.len() && before[k] == i as usize;
                    assert(now[k] == i as usize);
                } else {
                    assert(now[before.len() as int] == i as usize);
                }
            }
        }
    }
}

/// A row is selected exactly when it has a day that is on or after the start
/// bound (if any) and on or before the end bound (if any), both bounds
/// included: rows without a day are never selected.
pub proof fn lemma_rows_in_range_meaning(
    dates: Seq<Option<Date>>,
    start: Option<Date>,
    end: Option<Date>,
    i: int,
)
    requires
        dates.len() <= usize::MAX,
        0 <= i < dates.len(),
    ensures
        selected_rows(dates, dates.len(), start, end).contains(i as usize) <==> (
        dates[i] is Some && (start is Some ==> start.unwrap().days <= dates[i].unwrap().days) && (
        end is Some ==> dates[i].unwrap().days <= end.unwrap().days)),
{
    lemma_selected_rows_exact(dates, dates.len(), start, end);
    let sel = selected_rows(dates, dates.len(), start, end);
    if sel.contains(i as usize) {
        let k = choose|k: int| 0 <= k < sel.len() && sel[k] == i as usize;
        assert(in_range(dates[sel[k] as int], start, end));
    }
}

} // verus!
