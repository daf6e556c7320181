//! Month arithmetic, the month grid of the calendar panel, and the scrolling
//! window of the task lists.
use vstd::prelude::*;
use crate::date::{
    Date, DateView, MAX_YEAR, MIN_YEAR, month_length, month_length_of, valid_date, weekday_number,
    weekday_from_sunday, ymd,
};
use crate::text::{concat, decimal, decimal_string, owned, signed_decimal, signed_decimal_string};

verus! {

pub open spec fn year_in_range(year: int) -> bool {
    MIN_YEAR <= year <= MAX_YEAR
}

/// Whether the length of month `month` of `year` can be counted: the first
/// day of that month and the first day of the month after must both exist.
pub open spec fn month_countable(year: int, month: int) -> bool {
    &&& 1 <= month <= 12
    &&& year_in_range(year)
    &&& (month < 12 || year + 1 <= MAX_YEAR)
}

/// The message given when the length of a month cannot be counted.
pub open spec fn month_count_error(year: int, month: int) -> Seq<char> {
    if month < 1 || month > 12 {
        "invalid month: "@ + decimal(month as nat)
    } else if month == 12 && year == i32::MAX {
        "year overflow: "@ + signed_decimal(year)
    } else if !year_in_range(year) {
        "invalid date: "@ + signed_decimal(year) + "-"@ + decimal(month as nat) + "-1"@
    } else {
        "invalid date: "@ + signed_decimal(year + 1) + "-1-1"@
    }
}

/// The number of days of a month, found as the distance between the first of
/// the month and the first of the next one.
fn days_in_month(year: i32, month: u32) -> (r: Result<u32, String>)
    ensures
        r is Ok <==> month_countable(year as int, month as int),
        r matches Ok(n) ==> n == month_length(year as int, month as int),
        r matches Err(e) ==> e@ == month_count_error(year as int, month as int),
{
    if month == 0 || month > 12 {
        return Err(concat(owned("invalid month: "), decimal_string(month as u64).as_str()));
    }
    if month == 12 && year == i32::MAX {
        return Err(concat(owned("year overflow: "), signed_decimal_string(year as i64).as_str()));
    }
    if year < MIN_YEAR || year > MAX_YEAR {
        let text = concat(owned("invalid date: "), signed_decimal_string(year as i64).as_str());
        let text = concat(text, "-");
        let text = concat(text, decimal_string(month as u64).as_str());
        return Err(concat(text, "-1"));
    }
    if month == 12 && year == MAX_YEAR {
        let next_year: i64 = year as i64 + 1;
        let text = concat(owned("invalid date: "), signed_decimal_string(next_year).as_str());
        return Err(concat(text, "-1-1"));
    }
    Ok(month_length_of(year, month))
}

/// Position of the month of `v` when months are counted from January of year 0.
pub open spec fn month_index(v: DateView) -> int {
    v.year * 12 + (v.month - 1)
}

/// Year and month reached by moving `delta` months from the month of `v`.
pub open spec fn shifted_year(v: DateView, delta: int) -> int {
    (month_index(v) + delta) / 12
}

pub open spec fn shifted_month(v: DateView, delta: int) -> int {
    (month_index(v) + delta) % 12 + 1
}

pub open spec fn min_int(a: int, b: int) -> int {
    if a <= b {
        a
    } else {
        b
    }
}

/// The date `delta` months from `v`, its day clamped to the length of the
/// month reached, or the message given when that month cannot be counted.
pub open spec fn shift_month_spec(v: DateView, delta: int) -> Result<DateView, Seq<char>> {
    let year = shifted_year(v, delta);
    let month = shifted_month(v, delta);
    if month_countable(year, month) {
        Ok(ymd(year, month, min_int(v.day, month_length(year, month))))
    } else {
        Err(month_count_error(year, month))
    }
}

/// The date `delta_months` months from `day`, keeping the day of month where
/// it exists and otherwise using the last day of the month reached.
pub fn shift_month_date(day: Date, delta_months: i32) -> (r: Result<Date, String>)
    ensures
        r matches Ok(d) ==> shift_month_spec(day@, delta_months as int) == Ok::<DateView, Seq<char>>(
            d@,
        ),
        r matches Err(e) ==> shift_month_spec(day@, delta_months as int) == Err::<
            DateView,
            Seq<char>,
        >(e@),
{
    let year = day.year();
    let month = day.month();
    let offset: i64 = 12 * 268435456;
    let total: i64 = year as i64 * 12 + (month as i64 - 1) + delta_months as i64;
    let lifted: u64 = (total + offset) as u64;
    let new_year_i64: i64 = (lifted / 12) as i64 - 268435456;
    let new_month: u32 = ((lifted % 12) + 1) as u32;
    proof {
        let t = total as int;
        assert(lifted as int == t + 12 * 268435456);
        assert((t + 12 * 268435456) / 12 == t / 12 + 268435456) by (nonlinear_arith);
        assert((t + 12 * 268435456) % 12 == t % 12) by (nonlinear_arith);
        assert(t == month_index(day@) + delta_months);
    }
    let new_year: i32 = new_year_i64 as i32;
    let max_day = match days_in_month(new_year, new_month) {
        Ok(n) => n,
        Err(e) => {
            return Err(e);
        },
    };
    let day_of_month = day.day();
    let clamped = if day_of_month <= max_day {
        day_of_month
    } else {
        max_day
    };
    match Date::from_ymd_opt(new_year, new_month, clamped) {
        Some(d) => Ok(d),
        None => Err(owned("failed to build shifted date")),
    }
}

/// The day of month `d` of the month of `v`.
pub open spec fn day_of_same_month(v: DateView, d: int) -> DateView {
    ymd(v.year, v.month, d)
}

/// Column of the first day of the month of `v`, counted from Sunday.
pub open spec fn grid_offset(v: DateView) -> int {
    weekday_from_sunday(ymd(v.year, v.month, 1))
}

/// Whether grid cell `i` of the month of `v` holds a date.
pub open spec fn grid_cell_filled(v: DateView, i: int) -> bool {
    grid_offset(v) <= i < grid_offset(v) + month_length(v.year, v.month)
}

/// The six-week grid (42 cells, weeks starting on Sunday) of the month of
/// `selected_day`: cell `offset + d - 1` holds day `d`, the other cells none.
pub fn month_grid(selected_day: Date) -> (r: Result<Vec<Option<Date>>, String>)
    ensures
        r is Ok <==> month_countable(selected_day@.year, selected_day@.month),
        r matches Err(e) ==> e@ == month_count_error(selected_day@.year, selected_day@.month),
        r matches Ok(cells) ==> {
            &&& cells@.len() == 42
            &&& forall|i: int|
                0 <= i < 42 ==> (#[trigger] cells@[i] is Some <==> grid_cell_filled(
                    selected_day@,
                    i,
                ))
            &&& forall|i: int|
                0 <= i < 42 && #[trigger] cells@[i] is Some ==> cells@[i]->0@ == day_of_same_month(
                    selected_day@,
                    i - grid_offset(selected_day@) + 1,
                )
        },
{
    let year = selected_day.year();
    let month = selected_day.month();
    let first = match Date::from_ymd_opt(year, month, 1) {
        Some(d) => d,
        None => {
            return Err(owned("invalid month start"));
        },
    };
    let offset = weekday_number(first) as usize;
    let total_days = match days_in_month(year, month) {
        Ok(n) => n,
        Err(e) => {
            return Err(e);
        },
    };
    proof {
        assert(weekday_from_sunday(first@) < 7);
    }
    let ghost v = selected_day@;
    let mut cells: Vec<Option<Date>> = Vec::new();
    let mut i: usize = 0;
    while i < 42
        invariant
            i <= 42,
            cells@.len() == i,
            offset == grid_offset(v),
            offset < 7,
            total_days == month_length(v.year, v.month),
            year == v.year,
            month == v.month,
            valid_date(v),
            forall|k: int| 0 <= k < i ==> (#[trigger] cells@[k] is Some <==> grid_cell_filled(v, k)),
            forall|k: int|
                0 <= k < i && #[trigger] cells@[k] is Some ==> cells@[k]->0@ == day_of_same_month(
                    v,
                    k - offset + 1,
                ),
        decreases 42 - i,
    {
        if offset <= i && i < offset + total_days as usize {
            let day_number = (i - offset + 1) as u32;
            match Date::from_ymd_opt(year, month, day_number) {
                Some(d) => cells.push(Some(d)),
                None => {
                    return Err(owned("invalid date in month grid"));
                },
            }
        } else {
            cells.push(None);
        }
        i = i + 1;
    }
    Ok(cells)
}

/// `a + b`, or `usize::MAX` when that is larger.
pub open spec fn sat_add(a: int, b: int) -> int {
    if a + b > usize::MAX {
        usize::MAX as int
    } else {
        a + b
    }
}

/// The rows `start..end` to show of `total_rows`, at most `window_rows` of
/// them, with the selection near the middle when the list scrolls.
pub open spec fn viewport_spec(total_rows: int, selected_index: int, window_rows: int) -> (
    int,
    int,
) {
    if window_rows == 0 {
        (0, 0)
    } else if total_rows <= window_rows {
        (0, total_rows)
    } else {
        let half = window_rows / 2;
        let centered = if selected_index >= half {
            selected_index - half
        } else {
            0
        };
        let start = if sat_add(centered, window_rows) > total_rows {
            total_rows - window_rows
        } else {
            centered
        };
        (start, sat_add(start, window_rows))
    }
}

/// The rows to show of a list of `total_rows` in a window of `window_rows`.
/// The window never runs past the end of the list and always shows the
/// selected row; it holds as many rows as fit.
pub fn viewport_window(total_rows: usize, selected_index: usize, window_rows: usize) -> (r: (
    usize,
    usize,
))
    ensures
        (r.0 as int, r.1 as int) == viewport_spec(
            total_rows as int,
            selected_index as int,
            window_rows as int,
        ),
        r.0 <= r.1 <= total_rows,
        selected_index < total_rows && window_rows > 0 ==> r.0 <= selected_index < r.1,
        total_rows < usize::MAX ==> r.1 - r.0 == min_int(total_rows as int, window_rows as int),
{
    if window_rows == 0 {
        return (0, 0);
    }
    if total_rows <= window_rows {
        return (0, total_rows);
    }
    let half = window_rows / 2;
    let mut start: usize = if selected_index >= half {
        selected_index - half
    } else {
        0
    };
    let reach: usize = if start > usize::MAX - window_rows {
        usize::MAX
    } else {
        start + window_rows
    };
    if reach > total_rows {
        start = total_rows - window_rows;
    }
    let end: usize = if start > usize::MAX - window_rows {
        usize::MAX
    } else {
        start + window_rows
    };
    (start, end)
}


/// Moving by months lands `delta` months away, on the same day of the month,
/// or on the month's last day when the day does not exist there.
pub proof fn law_month_shift_clamps(v: DateView, delta: int)
    requires
        valid_date(v),
        shift_month_spec(v, delta) is Ok,
    ensures
        ({
            let w = shift_month_spec(v, delta)->Ok_0;
            &&& month_index(w) == month_index(v) + delta
            &&& w.day == min_int(v.day, month_length(w.year, w.month))
            &&& valid_date(w)
        }),
{
    let t = month_index(v) + delta;
    let w = shift_month_spec(v, delta)->Ok_0;
    assert(w.year * 12 + (w.month - 1) == t) by {
        assert(t == (t / 12) * 12 + t % 12);
    }
}

/// The month grid of a day has that day in the cell after the offset.
pub proof fn law_grid_holds_day(v: DateView)
    requires
        valid_date(v),
    ensures
        grid_cell_filled(v, grid_offset(v) + v.day - 1),
        day_of_same_month(v, v.day) == v,
{
}

} // verus!
