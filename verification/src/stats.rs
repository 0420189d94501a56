//! The sales charts of the administration: sales per day, per week and
//! per month over a window that ends now. These functions choose the
//! periods to query and label them; the server runs one query per period.

use vstd::prelude::*;
use crate::dates::{calendar_date_exists, CalendarDate};

verus! {

/// The longest windows the charts accept.
pub open spec fn max_days() -> int {
    365
}

pub open spec fn max_weeks() -> int {
    52
}

pub open spec fn max_months() -> int {
    36
}

/// Whether a window of `n` periods is charted; other windows give empty charts.
pub open spec fn window_accepted(n: int, max: int) -> bool {
    0 < n <= max
}

/// The days to query, counted back from today: today, yesterday, ... `n`
/// days ago (`n + 1` days in all), or none when the window is refused.
pub fn day_offsets(n: u16) -> (res: Vec<u32>)
    ensures
        window_accepted(n as int, max_days()) ==> res@ == Seq::new((n + 1) as nat, |i: int| i as u32),
        !window_accepted(n as int, max_days()) ==> res@.len() == 0,
{
    let mut res: Vec<u32> = Vec::new();
    if n > 0 && n <= 365 {
        let mut k: u32 = 0;
        while k <= n as u32
            invariant
                0 < n <= 365,
                k <= n + 1,
                res@ == Seq::new(k as nat, |i: int| i as u32),
            decreases n + 1 - k,
        {
            res.push(k);
            assert(res@ =~= Seq::new((k + 1) as nat, |i: int| i as u32));
            k = k + 1;
        }
    }
    res
}

/// The weekday (0 for Sunday) of the day `k` days before a day whose weekday is `today`.
pub open spec fn weekday_back(today: int, k: int) -> int {
    (today - k) % 7
}

/// The weekday labels of the daily chart, oldest day first: the chart
/// ends today, so its last label is today's weekday and each label is the
/// day after the one before it.
pub fn day_labels(n: u16, today: u32) -> (res: Vec<u32>)
    requires
        today < 7,
    ensures
        window_accepted(n as int, max_days()) ==> {
            &&& res@.len() == n + 1
            &&& forall|j: int| 0 <= j <= n ==> #[trigger] res@[j] == weekday_back(today as int, n - j)
        },
        !window_accepted(n as int, max_days()) ==> res@.len() == 0,
{
    let mut res: Vec<u32> = Vec::new();
    if n > 0 && n <= 365 {
        let mut j: u32 = 0;
        while j <= n as u32
            invariant
                0 < n <= 365,
                today < 7,
                j <= n + 1,
                res@.len() == j,
                forall|i: int| 0 <= i < j ==> #[trigger] res@[i] == weekday_back(today as int, n - i),
            decreases n + 1 - j,
        {
            let back: u32 = (n as u32 - j) % 7;
            let label: u32 = (today + 7 - back) % 7;
            assert(label == weekday_back(today as int, n - j)) by {
                assert((today as int - (n - j)) % 7 == (today as int + 7 - (n - j) % 7) % 7) by (nonlinear_arith)
                    requires
                        today < 7,
                        j <= n,
                ;
            }
            res.push(label);
            j = j + 1;
        }
    }
    res
}

/// The daily chart's labels end with today's weekday and go up one day at
/// a time, wrapping from Saturday (6) to Sunday (0).
pub proof fn lemma_day_labels_consecutive(n: int, today: int, j: int)
    requires
        0 <= today < 7,
        0 <= j < n,
    ensures
        weekday_back(today, n - n) == today,
        weekday_back(today, n - (j + 1)) == (weekday_back(today, n - j) + 1) % 7,
{
    assert((today - (n - (j + 1))) % 7 == ((today - (n - j)) % 7 + 1) % 7) by (nonlinear_arith);
}

/// The weeks to query, oldest last: the `i`-th window (from 0) ends `i`
/// weeks before the coming Monday and spans the week before that end.
pub fn week_window_ends(n: u16) -> (res: Vec<u32>)
    ensures
        window_accepted(n as int, max_weeks()) ==> res@ == Seq::new(n as nat, |i: int| i as u32),
        !window_accepted(n as int, max_weeks()) ==> res@.len() == 0,
{
    let mut res: Vec<u32> = Vec::new();
    if n > 0 && n <= 52 {
        let mut k: u32 = 0;
        while k < n as u32
            invariant
                0 < n <= 52,
                k <= n,
                res@ == Seq::new(k as nat, |i: int| i as u32),
            decreases n - k,
        {
            res.push(k);
            assert(res@ =~= Seq::new((k + 1) as nat, |i: int| i as u32));
            k = k + 1;
        }
    }
    res
}

/// The labels of the weekly chart, oldest week first: `n - 1` down to 0,
/// the number of weeks before the current one.
pub fn week_labels(n: u16) -> (res: Vec<u32>)
    ensures
        window_accepted(n as int, max_weeks()) ==> res@ == Seq::new(n as nat, |i: int| (n - 1 - i) as u32),
        !window_accepted(n as int, max_weeks()) ==> res@.len() == 0,
{
    let mut res: Vec<u32> = Vec::new();
    if n > 0 && n <= 52 {
        let mut k: u32 = 0;
        while k < n as u32
            invariant
                0 < n <= 52,
                k <= n,
                res@ == Seq::new(k as nat, |i: int| (n - 1 - i) as u32),
            decreases n - k,
        {
            res.push(n as u32 - 1 - k);
            assert(res@ =~= Seq::new((k + 1) as nat, |i: int| (n - 1 - i) as u32));
            k = k + 1;
        }
    }
    res
}

/// The months to query, newest first: the `i`-th runs from the start of the
/// month `i` months back to the start of the month `i - 1` months back
/// (the current month runs to the start of the next one). `n + 1` months.
pub fn month_windows(n: u16) -> (res: Vec<(i32, i32)>)
    ensures
        window_accepted(n as int, max_months()) ==> res@ == Seq::new(
            (n + 1) as nat,
            |i: int| (i as i32, (i - 1) as i32),
        ),
        !window_accepted(n as int, max_months()) ==> res@.len() == 0,
{
    let mut res: Vec<(i32, i32)> = Vec::new();
    if n > 0 && n <= 36 {
        let mut k: i32 = 0;
        while k <= n as i32
            invariant
                0 < n <= 36,
                0 <= k <= n + 1,
                res@ == Seq::new(k as nat, |i: int| (i as i32, (i - 1) as i32)),
            decreases n + 1 - k,
        {
            res.push((k, k - 1));
            assert(res@ =~= Seq::new((k + 1) as nat, |i: int| (i as i32, (i - 1) as i32)));
            k = k + 1;
        }
    }
    res
}

/// The number of days from 1970-01-01 to year `y`, month `m`, day `d` of
/// the proleptic Gregorian calendar (negative before it).
pub open spec fn day_number(y: int, m: int, d: int) -> int {
    let ya = if m <= 2 { y - 1 } else { y };
    let era = ya / 400;
    let yoe = ya - era * 400;
    let mp = if m > 2 { m - 3 } else { m + 9 };
    let doy = (153 * mp + 2) / 5 + d - 1;
    let doe = yoe * 365 + yoe / 4 - yoe / 100 + doy;
    era * 146097 + doe - 719468
}

pub open spec fn date_number(d: CalendarDate) -> int {
    day_number(d.year as int, d.month as int, d.day as int)
}

pub open spec fn valid_date(d: CalendarDate) -> bool {
    calendar_date_exists(d.year as int, d.month as int, d.day as int)
}

/// Whether a day number lies between the first and the last day that a
/// `chrono::NaiveDate` can hold.
pub open spec fn day_in_range(k: int) -> bool {
    day_number(-262143, 1, 1) <= k <= day_number(262142, 12, 31)
}

/// The weekday of a date, counted from Monday (0) to Sunday (6);
/// 1970-01-01 was a Thursday.
pub open spec fn weekday_from_monday_spec(d: CalendarDate) -> int {
    (date_number(d) + 3) % 7
}

/// Asks chrono for the date `days` days after `date`, or before it when
/// `days` is negative (`NaiveDate::from_ymd_opt`, then `checked_add_signed`
/// with `TimeDelta::days`). chrono's dates follow the proleptic Gregorian
/// calendar, so the result is the date whose day number is that of `date`
/// plus `days`; it exists since that number lies in chrono's range.
#[verifier::external_body]
fn chrono_add_days(date: CalendarDate, days: i32) -> (res: CalendarDate)
    requires
        valid_date(date),
        day_in_range(date_number(date) + days),
    ensures
        valid_date(res),
        date_number(res) == date_number(date) + days,
{
    let start = chrono::NaiveDate::from_ymd_opt(date.year, date.month, date.day).unwrap();
    let moved = start.checked_add_signed(chrono::TimeDelta::days(days as i64)).unwrap();
    CalendarDate {
        year: chrono::Datelike::year(&moved),
        month: chrono::Datelike::month(&moved),
        day: chrono::Datelike::day(&moved),
    }
}

/// Asks chrono for a date's weekday (`Datelike::weekday`, then
/// `Weekday::num_days_from_monday`): 0 for Monday up to 6 for Sunday.
#[verifier::external_body]
fn chrono_weekday_from_monday(date: CalendarDate) -> (res: u32)
    requires
        valid_date(date),
    ensures
        res == weekday_from_monday_spec(date),
{
    let day = chrono::NaiveDate::from_ymd_opt(date.year, date.month, date.day).unwrap();
    chrono::Datelike::weekday(&day).num_days_from_monday()
}

/// A date's weekday counted from Sunday (0) to Saturday (6), as the daily
/// chart's labels count them.
pub fn weekday_from_sunday(date: CalendarDate) -> (res: u32)
    requires
        valid_date(date),
    ensures
        res == (date_number(date) + 4) % 7,
{
    let from_monday = chrono_weekday_from_monday(date);
    (from_monday + 1) % 7
}

/// The days the daily chart queries, from today back: the `i`-th is `i`
/// days before today, for each offset of `day_offsets`.
pub fn chart_days(today: CalendarDate, n: u16) -> (res: Vec<CalendarDate>)
    requires
        valid_date(today),
        day_in_range(date_number(today)),
        window_accepted(n as int, max_days()) ==> day_in_range(date_number(today) - n),
    ensures
        window_accepted(n as int, max_days()) ==> {
            &&& res@.len() == n + 1
            &&& forall|i: int|
                0 <= i <= n ==> valid_date(#[trigger] res@[i]) && date_number(res@[i]) == date_number(today) - i
        },
        !window_accepted(n as int, max_days()) ==> res@.len() == 0,
{
    let offsets = day_offsets(n);
    let mut res: Vec<CalendarDate> = Vec::new();
    let mut k: usize = 0;
    while k < offsets.len()
        invariant
            valid_date(today),
            day_in_range(date_number(today)),
            window_accepted(n as int, max_days()) ==> day_in_range(date_number(today) - n),
            window_accepted(n as int, max_days()) ==> offsets@ == Seq::new((n + 1) as nat, |i: int| i as u32),
            !window_accepted(n as int, max_days()) ==> offsets@.len() == 0,
            k <= offsets@.len(),
            res@.len() == k,
            forall|i: int|
                0 <= i < k ==> valid_date(#[trigger] res@[i]) && date_number(res@[i]) == date_number(today) - i,
        decreases offsets@.len() - k,
    {
        let back: u32 = offsets[k];
        assert(back == k);
        let day = chrono_add_days(today, -(back as i32));
        res.push(day);
        k = k + 1;
    }
    res
}

/// The day number of the Monday after the week of `today` (a week later
/// when today is a Monday).
pub open spec fn coming_monday_number(today: CalendarDate) -> int {
    date_number(today) + 7 - weekday_from_monday_spec(today)
}

/// The weeks the weekly chart queries, as (first day, day after the last):
/// the `i`-th ends `i` weeks before the coming Monday and starts a week
/// before its end, for each window of `week_window_ends`.
pub fn chart_weeks(today: CalendarDate, n: u16) -> (res: Vec<(CalendarDate, CalendarDate)>)
    requires
        valid_date(today),
        day_in_range(coming_monday_number(today)),
        window_accepted(n as int, max_weeks()) ==> day_in_range(coming_monday_number(today) - 7 * n),
    ensures
        window_accepted(n as int, max_weeks()) ==> {
            &&& res@.len() == n
            &&& forall|i: int| 0 <= i < n ==> {
                &&& valid_date((#[trigger] res@[i]).0)
                &&& valid_date(res@[i].1)
                &&& date_number(res@[i].0) == coming_monday_number(today) - 7 * i - 7
                &&& date_number(res@[i].1) == coming_monday_number(today) - 7 * i
            }
        },
        !window_accepted(n as int, max_weeks()) ==> res@.len() == 0,
{
    let from_monday = chrono_weekday_from_monday(today);
    let coming_monday = chrono_add_days(today, 7 - from_monday as i32);
    let ends = week_window_ends(n);
    let mut res: Vec<(CalendarDate, CalendarDate)> = Vec::new();
    let mut k: usize = 0;
    while k < ends.len()
        invariant
            valid_date(coming_monday),
            date_number(coming_monday) == coming_monday_number(today),
            day_in_range(coming_monday_number(today)),
            window_accepted(n as int, max_weeks()) ==> day_in_range(coming_monday_number(today) - 7 * n),
            window_accepted(n as int, max_weeks()) ==> ends@ == Seq::new(n as nat, |i: int| i as u32),
            !window_accepted(n as int, max_weeks()) ==> ends@.len() == 0,
            k <= ends@.len(),
            res@.len() == k,
            forall|i: int| 0 <= i < k ==> {
                &&& valid_date((#[trigger] res@[i]).0)
                &&& valid_date(res@[i].1)
                &&& date_number(res@[i].0) == coming_monday_number(today) - 7 * i - 7
                &&& date_number(res@[i].1) == coming_monday_number(today) - 7 * i
            },
        decreases ends@.len() - k,
    {
        let back: u32 = ends[k];
        assert(back == k && back < n && n <= 52);
        let end = chrono_add_days(coming_monday, -(7 * back as i32));
        let start = chrono_add_days(end, -7);
        res.push((start, end));
        k = k + 1;
    }
    res
}

} // verus!
