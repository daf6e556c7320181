//! What the screens show, as plain text and numbers: the program draws it
//! with the terminal library and the theme's colours.
use vstd::prelude::*;
use crate::app::calendar::{day_of_same_month, grid_cell_filled, grid_offset, month_count_error, month_countable};
use crate::app::month_grid;
use crate::date::Date;
use crate::model::{Area, Priority, Status};
use crate::text::{
    concat, decimal, decimal_string, join, join_chars, owned, signed_decimal,
    signed_decimal_string, string_of, to_chars, views_of,
};
use crate::date::{date_heading_string, date_text, date_to_string, weekday_abbrev, weekday_from_sunday};
use crate::ui_state::{TaskFormField, TaskFormState, VisibleTodo};

verus! {

// ----- placing a dialog -----

/// A rectangle of terminal cells.
#[derive(Clone, Copy, Debug, PartialEq, Eq, Structural)]
pub struct Rect {
    pub x: u16,
    pub y: u16,
    pub width: u16,
    pub height: u16,
}

pub open spec fn sat_mul_u16(a: int, b: int) -> int {
    if a * b > u16::MAX {
        u16::MAX as int
    } else {
        a * b
    }
}

pub open spec fn sat_sub(a: int, b: int) -> int {
    if a >= b {
        a - b
    } else {
        0
    }
}

pub open spec fn max_int(a: int, b: int) -> int {
    if a >= b {
        a
    } else {
        b
    }
}

pub open spec fn min_of(a: int, b: int) -> int {
    if a <= b {
        a
    } else {
        b
    }
}

/// `a * b`, or `u16::MAX` when the product does not fit.
fn saturating_product(a: u16, b: u16) -> (r: u16)
    ensures
        r == sat_mul_u16(a as int, b as int),
{
    assert(a as int * b as int <= 65535 * 65535) by (nonlinear_arith)
        requires
            a <= 65535,
            b <= 65535,
    ;
    let p: u32 = a as u32 * b as u32;
    if p > 65535 {
        65535
    } else {
        p as u16
    }
}

/// One side of a centred box: `percent` of the room (saturating), at least
/// `least`, at most the room less two.
pub open spec fn centered_side(room: int, percent: int, least: int) -> int {
    min_of(max_int(sat_mul_u16(room, percent) / 100, least), sat_sub(room, 2))
}

/// A box centred in `area`, `percent_x` by `percent_y` of it, at least
/// `min_width` by `min_height`, at most two cells smaller than `area` and
/// never less than one cell.
pub fn centered_rect(percent_x: u16, percent_y: u16, min_width: u16, min_height: u16, area: Rect) -> (r:
    Rect)
    requires
        area.x + area.width <= u16::MAX,
        area.y + area.height <= u16::MAX,
    ensures
        ({
            let w = centered_side(area.width as int, percent_x as int, min_width as int);
            let h = centered_side(area.height as int, percent_y as int, min_height as int);
            &&& r.x == area.x + sat_sub(area.width as int, w) / 2
            &&& r.y == area.y + sat_sub(area.height as int, h) / 2
            &&& r.width == max_int(w, 1)
            &&& r.height == max_int(h, 1)
        }),
{
    let desired_w = saturating_product(area.width, percent_x) / 100;
    let desired_h = saturating_product(area.height, percent_y) / 100;
    let wide = if desired_w >= min_width {
        desired_w
    } else {
        min_width
    };
    let tall = if desired_h >= min_height {
        desired_h
    } else {
        min_height
    };
    let room_w = area.width.saturating_sub(2);
    let room_h = area.height.saturating_sub(2);
    let width = if wide <= room_w {
        wide
    } else {
        room_w
    };
    let height = if tall <= room_h {
        tall
    } else {
        room_h
    };
    let x = area.x + (area.width.saturating_sub(width)) / 2;
    let y = area.y + (area.height.saturating_sub(height)) / 2;
    Rect {
        x,
        y,
        width: if width >= 1 {
            width
        } else {
            1
        },
        height: if height >= 1 {
            height
        } else {
            1
        },
    }
}

// ----- names and chips -----

/// The English name of month `month` (1 to 12), `Unknown` otherwise.
pub open spec fn month_title(month: int) -> Seq<char> {
    if month == 1 {
        "January"@
    } else if month == 2 {
        "February"@
    } else if month == 3 {
        "March"@
    } else if month == 4 {
        "April"@
    } else if month == 5 {
        "May"@
    } else if month == 6 {
        "June"@
    } else if month == 7 {
        "July"@
    } else if month == 8 {
        "August"@
    } else if month == 9 {
        "September"@
    } else if month == 10 {
        "October"@
    } else if month == 11 {
        "November"@
    } else if month == 12 {
        "December"@
    } else {
        "Unknown"@
    }
}

pub fn month_name(month: u32) -> (r: &'static str)
    ensures
        r@ == month_title(month as int),
{
    match month {
        1 => "January",
        2 => "February",
        3 => "March",
        4 => "April",
        5 => "May",
        6 => "June",
        7 => "July",
        8 => "August",
        9 => "September",
        10 => "October",
        11 => "November",
        12 => "December",
        _ => "Unknown",
    }
}

/// The chip text of a priority.
pub open spec fn priority_chip_text(priority: Priority) -> Seq<char> {
    match priority {
        Priority::High => " P1 "@,
        Priority::Medium => " P2 "@,
        Priority::Low => " P3 "@,
    }
}

pub fn priority_chip_label(priority: Priority) -> (r: &'static str)
    ensures
        r@ == priority_chip_text(priority),
{
    match priority {
        Priority::High => " P1 ",
        Priority::Medium => " P2 ",
        Priority::Low => " P3 ",
    }
}

/// The chip text of an area.
pub open spec fn area_chip_text(area: Area) -> Seq<char> {
    match area {
        Area::Projects => " projects "@,
        Area::Home => " home "@,
        Area::Admin => " admin "@,
        Area::Personal => " personal "@,
        Area::Waiting => " waiting "@,
        Area::Inbox => " inbox "@,
    }
}

pub fn area_chip_label(area: Area) -> (r: &'static str)
    ensures
        r@ == area_chip_text(area),
{
    match area {
        Area::Projects => " projects ",
        Area::Home => " home ",
        Area::Admin => " admin ",
        Area::Personal => " personal ",
        Area::Waiting => " waiting ",
        Area::Inbox => " inbox ",
    }
}

/// The name of a priority as the form shows it.
pub open spec fn priority_text(priority: Priority) -> Seq<char> {
    match priority {
        Priority::High => "High"@,
        Priority::Medium => "Medium"@,
        Priority::Low => "Low"@,
    }
}

pub fn priority_name(priority: Priority) -> (r: &'static str)
    ensures
        r@ == priority_text(priority),
{
    match priority {
        Priority::High => "High",
        Priority::Medium => "Medium",
        Priority::Low => "Low",
    }
}

/// `s` followed by spaces up to `width` characters.
pub open spec fn pad_right(s: Seq<char>, width: nat) -> Seq<char> {
    if s.len() >= width {
        s
    } else {
        s + Seq::new((width - s.len()) as nat, |i: int| ' ')
    }
}

/// The key column of a help line: the key padded to 18 characters, with a
/// space on each side.
pub fn help_key_text(key: &str) -> (r: String)
    ensures
        r@ == " "@ + pad_right(key@, 18) + " "@,
{
    let mut chars = to_chars(key);
    let ghost start = chars@;
    if chars.len() < 18 {
        assert(chars@ =~= start + Seq::new(0, |i: int| ' '));
        while chars.len() < 18
            invariant
                start.len() <= chars@.len() <= 18,
                chars@ == start + Seq::new((chars@.len() - start.len()) as nat, |i: int| ' '),
            decreases 18 - chars@.len(),
        {
            chars.push(' ');
            assert(chars@ =~= start + Seq::new((chars@.len() - start.len()) as nat, |i: int| ' '));
        }
    }
    let padded = string_of(chars.as_slice());
    let text = concat(owned(" "), padded.as_str());
    concat(text, " ")
}

// ----- notes in one line -----

/// `t` without a carriage return at its end.
pub open spec fn strip_cr(t: Seq<char>) -> Seq<char> {
    if t.len() > 0 && t.last() == '\r' {
        t.drop_last()
    } else {
        t
    }
}

/// The lines of `s`, the pending line so far being `cur`: a line ends at a
/// newline, which it loses together with a carriage return before it; the
/// last line needs no newline, and an empty last line does not count.
pub open spec fn lines_from(s: Seq<char>, cur: Seq<char>) -> Seq<Seq<char>>
    decreases s.len(),
{
    if s.len() == 0 {
        if cur.len() == 0 {
            seq![]
        } else {
            seq![cur]
        }
    } else if s[0] == '\n' {
        seq![strip_cr(cur)] + lines_from(s.drop_first(), seq![])
    } else {
        lines_from(s.drop_first(), cur.push(s[0]))
    }
}

/// The lines of a text, as std's `str::lines` splits it.
pub open spec fn text_lines(s: Seq<char>) -> Seq<Seq<char>> {
    lines_from(s, seq![])
}

proof fn lemma_lines_step(s: Seq<char>, cur: Seq<char>, i: int)
    requires
        0 <= i < s.len(),
    ensures
        lines_from(s.skip(i), cur) == if s[i] == '\n' {
            seq![strip_cr(cur)] + lines_from(s.skip(i + 1), seq![])
        } else {
            lines_from(s.skip(i + 1), cur.push(s[i]))
        },
{
    assert(s.skip(i).drop_first() =~= s.skip(i + 1));
}

/// The lines of `s`, in order.
pub fn text_lines_of(s: &[char]) -> (r: Vec<Vec<char>>)
    ensures
        views_of(r@) == text_lines(s@),
{
    let mut out: Vec<Vec<char>> = Vec::new();
    let mut cur: Vec<char> = Vec::new();
    let mut i: usize = 0;
    assert(s@.skip(0) =~= s@);
    assert(views_of(out@) =~= Seq::<Seq<char>>::empty());
    while i < s.len()
        invariant
            i <= s@.len(),
            views_of(out@) + lines_from(s@.skip(i as int), cur@) == text_lines(s@),
        decreases s@.len() - i,
    {
        proof {
            lemma_lines_step(s@, cur@, i as int);
        }
        if s[i] == '\n' {
            let ghost before = views_of(out@);
            let ghost line = strip_cr(cur@);
            if cur.len() > 0 && cur[cur.len() - 1] == '\r' {
                let _ = cur.pop();
            }
            assert(cur@ =~= line);
            out.push(cur);
            cur = Vec::new();
            assert(views_of(out@) =~= before.push(line));
            assert(before.push(line) + lines_from(s@.skip(i + 1), seq![]) =~= before + (seq![line]
                + lines_from(s@.skip(i + 1), seq![])));
            assert(cur@ =~= Seq::<char>::empty());
        } else {
            cur.push(s[i]);
        }
        i = i + 1;
    }
    assert(s@.skip(s@.len() as int) =~= Seq::<char>::empty());
    if cur.len() > 0 {
        let ghost before = views_of(out@);
        let ghost line = cur@;
        out.push(cur);
        assert(views_of(out@) =~= before + seq![line]);
    } else {
        assert(views_of(out@) + Seq::<Seq<char>>::empty() =~= views_of(out@));
    }
    out
}

/// A note in one line: `<empty>` for no text; otherwise its lines joined by
/// ` ⏎ `, cut after 64 characters with `...` added.
pub open spec fn preview_text(d: Seq<char>) -> Seq<char> {
    if d.len() == 0 {
        "<empty>"@
    } else {
        let compact = join(text_lines(d), " ⏎ "@);
        if compact.len() > 64 {
            compact.take(64) + "..."@
        } else {
            compact
        }
    }
}

pub fn description_preview(description: &str) -> (r: String)
    ensures
        r@ == preview_text(description@),
{
    if description.is_empty() {
        return owned("<empty>");
    }
    let chars = to_chars(description);
    let lines = text_lines_of(chars.as_slice());
    let sep = to_chars(" ⏎ ");
    let compact = join_chars(&lines, sep.as_slice());
    if compact.len() > 64 {
        let mut cut: Vec<char> = Vec::new();
        let mut i: usize = 0;
        while i < 64
            invariant
                i <= 64,
                compact@.len() > 64,
                cut@ == compact@.take(i as int),
            decreases 64 - i,
        {
            cut.push(compact[i]);
            assert(cut@ =~= compact@.take(i + 1));
            i = i + 1;
        }
        concat(string_of(cut.as_slice()), "...")
    } else {
        string_of(compact.as_slice())
    }
}

// ----- the task lists -----

/// What an empty list says: an invitation while the search is empty, no
/// match when a search finds nothing, and no tasks otherwise.
pub open spec fn empty_text(search_active: bool, query: Seq<char>) -> Seq<char> {
    if search_active {
        if query.len() == 0 {
            "search active: type to filter"@
        } else {
            "no matching tasks"@
        }
    } else {
        "no tasks"@
    }
}

pub fn empty_message(search_active: bool, search_query: &str) -> (r: &'static str)
    ensures
        r@ == empty_text(search_active, search_query@),
{
    if search_active {
        if search_query.is_empty() {
            "search active: type to filter"
        } else {
            "no matching tasks"
        }
    } else {
        "no tasks"
    }
}

/// How many of `rows` are done.
pub open spec fn done_count(rows: Seq<VisibleTodo>) -> nat
    decreases rows.len(),
{
    if rows.len() == 0 {
        0
    } else {
        done_count(rows.drop_last()) + if rows.last().status == Status::Done {
            1nat
        } else {
            0nat
        }
    }
}

/// The counts the task panel shows: rows not done, and rows done.
pub fn board_counts(rows: &[VisibleTodo]) -> (r: (usize, usize))
    ensures
        r.1 == done_count(rows@),
        r.0 == rows@.len() - done_count(rows@),
{
    let mut done: usize = 0;
    let mut i: usize = 0;
    while i < rows.len()
        invariant
            i <= rows@.len(),
            done == done_count(rows@.take(i as int)),
            done <= i,
        decreases rows@.len() - i,
    {
        assert(rows@.take(i + 1).drop_last() =~= rows@.take(i as int));
        if rows[i].status == Status::Done {
            done = done + 1;
        }
        i = i + 1;
    }
    assert(rows@.take(rows@.len() as int) =~= rows@);
    (rows.len() - done, done)
}

/// The marker in front of a row: an arrow for the selected row.
pub open spec fn marker_text(selected: bool) -> Seq<char> {
    if selected {
        "▶ "@
    } else {
        "  "@
    }
}

pub fn row_marker(selected: bool) -> (r: &'static str)
    ensures
        r@ == marker_text(selected),
{
    if selected {
        "▶ "
    } else {
        "  "
    }
}

/// The title of a lane of the board; the backlog lane also counts the
/// tasks not done and done.
pub open spec fn lane_heading(status: Status, pending: nat, done: nat) -> Seq<char> {
    match status {
        Status::Backlog => " Backlog  todo:"@ + decimal(pending) + " done:"@ + decimal(done) + " "@,
        Status::Doing => " Doing "@,
        Status::Blocked => " Blocked "@,
        Status::Done => " Done "@,
    }
}

pub fn lane_title(status: Status, pending: usize, done: usize) -> (r: String)
    ensures
        r@ == lane_heading(status, pending as nat, done as nat),
{
    match status {
        Status::Backlog => {
            let t = concat(owned(" Backlog  todo:"), decimal_string(pending as u64).as_str());
            let t = concat(t, " done:");
            let t = concat(t, decimal_string(done as u64).as_str());
            concat(t, " ")
        },
        Status::Doing => owned(" Doing "),
        Status::Blocked => owned(" Blocked "),
        Status::Done => owned(" Done "),
    }
}

/// The positions of the rows with status `status`, in order.
pub open spec fn positions_with(rows: Seq<VisibleTodo>, status: Status) -> Seq<usize>
    decreases rows.len(),
{
    if rows.len() == 0 {
        seq![]
    } else {
        let rest = positions_with(rows.drop_last(), status);
        if rows.last().status == status {
            rest.push((rows.len() - 1) as usize)
        } else {
            rest
        }
    }
}

/// The rows of one lane of the board: the positions of the rows with that
/// status.
pub fn lane_positions(rows: &[VisibleTodo], status: Status) -> (r: Vec<usize>)
    ensures
        r@ == positions_with(rows@, status),
{
    let mut out: Vec<usize> = Vec::new();
    let mut i: usize = 0;
    while i < rows.len()
        invariant
            i <= rows@.len(),
            out@ == positions_with(rows@.take(i as int), status),
        decreases rows@.len() - i,
    {
        assert(rows@.take(i + 1).drop_last() =~= rows@.take(i as int));
        if rows[i].status == status {
            out.push(i);
        }
        i = i + 1;
    }
    assert(rows@.take(rows@.len() as int) =~= rows@);
    out
}

/// The position within a section of the row that is selected overall:
/// the first position holding `selected`, or 0 when none does.
pub open spec fn local_index(positions: Seq<usize>, selected: usize) -> int {
    if exists|k: int| 0 <= k < positions.len() && positions[k] == selected {
        choose|k: int|
            0 <= k < positions.len() && positions[k] == selected && forall|j: int|
                0 <= j < k ==> positions[j] != selected
    } else {
        0
    }
}

/// `positions` are the overall row numbers of a section's rows.
pub fn selected_index_in_rows(positions: &[usize], selected_index: usize) -> (r: usize)
    ensures
        r == local_index(positions@, selected_index),
{
    let mut k: usize = 0;
    while k < positions.len()
        invariant
            k <= positions@.len(),
            forall|j: int| 0 <= j < k ==> positions@[j] != selected_index,
        decreases positions@.len() - k,
    {
        if positions[k] == selected_index {
            proof {
                let p = positions@;
                assert(0 <= k < p.len() && p[k as int] == selected_index);
                let c = choose|c: int|
                    0 <= c < p.len() && p[c] == selected_index && forall|j: int|
                        0 <= j < c ==> p[j] != selected_index;
                assert(c == k as int) by {
                    if c < k {
                    } else if c > k {
                        assert(p[k as int] != selected_index);
                    }
                }
            }
            return k;
        }
        k = k + 1;
    }
    0
}

// ----- the calendar -----

/// The two heading lines of the calendar panel: the month's name and the
/// year; then the weekday and the date.
pub fn calendar_title(day: Date) -> (r: (String, String))
    ensures
        r.0@ == month_title(day@.month) + " "@ + signed_decimal(day@.year),
        r.1@ == weekday_abbrev(weekday_from_sunday(day@)) + seq![' '] + date_text(day@),
{
    let name = concat(owned(month_name(day.month())), " ");
    (concat(name, signed_decimal_string(day.year() as i64).as_str()), date_heading_string(day))
}

/// A cell of the calendar grid: its two-character text and whether it is
/// the selected day.
#[derive(Clone, Debug)]
pub struct CalendarCell {
    pub text: String,
    pub selected: bool,
}

/// The text of a day cell: the day number right-aligned in two characters.
pub open spec fn day_cell_text(day: int) -> Seq<char> {
    if day < 10 {
        " "@ + decimal(day as nat)
    } else {
        decimal(day as nat)
    }
}

/// The 42 cells of the month grid of `day` as the calendar panel shows them:
/// the day numbers in their cells, the selected day marked, blank cells of
/// two spaces; or the grid's error.
pub fn calendar_cells(day: Date) -> (r: Result<Vec<CalendarCell>, String>)
    ensures
        r is Ok <==> month_countable(day@.year, day@.month),
        r matches Err(e) ==> e@ == month_count_error(day@.year, day@.month),
        r matches Ok(cells) ==> {
            &&& cells@.len() == 42
            &&& forall|i: int|
                0 <= i < 42 ==> if grid_cell_filled(day@, i) {
                    &&& (#[trigger] cells@[i]).text@ == day_cell_text(
                        i - grid_offset(day@) + 1,
                    )
                    &&& cells@[i].selected == (day_of_same_month(day@, i - grid_offset(day@) + 1)
                        == day@)
                } else {
                    &&& cells@[i].text@ == "  "@
                    &&& !cells@[i].selected
                }
        },
{
    let grid = match month_grid(day) {
        Ok(cells) => cells,
        Err(e) => {
            return Err(e);
        },
    };
    let mut out: Vec<CalendarCell> = Vec::new();
    let mut i: usize = 0;
    while i < grid.len()
        invariant
            i <= grid@.len(),
            grid@.len() == 42,
            out@.len() == i,
            forall|k: int|
                0 <= k < 42 ==> (#[trigger] grid@[k] is Some <==> grid_cell_filled(day@, k)),
            forall|k: int|
                0 <= k < 42 && #[trigger] grid@[k] is Some ==> grid@[k]->0@ == day_of_same_month(
                    day@,
                    k - grid_offset(day@) + 1,
                ),
            forall|k: int|
                0 <= k < i ==> if grid_cell_filled(day@, k) {
                    &&& (#[trigger] out@[k]).text@ == day_cell_text(k - grid_offset(day@) + 1)
                    &&& out@[k].selected == (day_of_same_month(day@, k - grid_offset(day@) + 1)
                        == day@)
                } else {
                    &&& out@[k].text@ == "  "@
                    &&& !out@[k].selected
                },
        decreases grid@.len() - i,
    {
        let ghost k = i as int;
        let ghost filled = grid_cell_filled(day@, k);
        let cell = match grid[i] {
            Some(d) => {
                assert(grid@[k] is Some);
                assert(d@ == day_of_same_month(day@, k - grid_offset(day@) + 1));
                let n = d.day();
                let digits = decimal_string(n as u64);
                let text = if n < 10 {
                    concat(owned(" "), digits.as_str())
                } else {
                    digits
                };
                proof {
                    if d@ == day@ {
                        Date::lemma_view_injective(d, day);
                    }
                }
                CalendarCell { text, selected: d == day }
            },
            None => CalendarCell { text: owned("  "), selected: false },
        };
        out.push(cell);
        assert(grid@[k] is Some <==> filled);
        i = i + 1;
    }
    Ok(out)
}


// ----- the task form -----

/// The heading of the task form.
pub open spec fn form_heading_text(editing: bool) -> Seq<char> {
    if editing {
        "Edit task"@
    } else {
        "Add task"@
    }
}

pub fn task_form_heading(form: &TaskFormState) -> (r: &'static str)
    ensures
        r@ == form_heading_text(form.todo_id is Some),
{
    if form.todo_id.is_some() {
        "Edit task"
    } else {
        "Add task"
    }
}

/// One field line of the task form: its label chip, its value, and whether
/// it has the focus.
#[derive(Clone, Debug)]
pub struct FormLine {
    pub label: String,
    pub value: String,
    pub active: bool,
}

/// The label, value and focus of field `k` (0 title, 1 priority, 2 date,
/// 3 notes) of a form.
pub open spec fn form_line_spec(
    k: int,
    title: Seq<char>,
    priority: Priority,
    date: Date,
    description: Seq<char>,
    field: TaskFormField,
) -> (Seq<char>, Seq<char>, bool) {
    if k == 0 {
        (" title "@, " "@ + title, field == TaskFormField::Title)
    } else if k == 1 {
        (" priority "@, " "@ + priority_text(priority) + "  (←/→)"@, field == TaskFormField::Priority)
    } else if k == 2 {
        (
            " date "@,
            " "@ + date_text(date@) + "  (←/→ day, ↑/↓ week, {/} month)"@,
            field == TaskFormField::Date,
        )
    } else {
        (" description "@, " "@ + preview_text(description), field == TaskFormField::Description)
    }
}

fn form_line(label: &str, value: String, active: bool) -> (r: FormLine)
    ensures
        r.label@ == label@,
        r.value@ == value@,
        r.active == active,
{
    FormLine { label: owned(label), value, active }
}

/// The four field lines of the task form, in order.
pub fn task_form_fields(form: &TaskFormState) -> (r: Vec<FormLine>)
    ensures
        r@.len() == 4,
        forall|k: int|
            0 <= k < 4 ==> {
                let e = form_line_spec(
                    k,
                    form.title@,
                    form.priority,
                    form.date,
                    form.description@,
                    form.field,
                );
                &&& (#[trigger] r@[k]).label@ == e.0
                &&& r@[k].value@ == e.1
                &&& r@[k].active == e.2
            },
{
    let mut out: Vec<FormLine> = Vec::new();
    let title = concat(owned(" "), form.title.as_str());
    out.push(form_line(" title ", title, form.field == TaskFormField::Title));
    let priority = concat(concat(owned(" "), priority_name(form.priority)), "  (←/→)");
    out.push(form_line(" priority ", priority, form.field == TaskFormField::Priority));
    let date = concat(
        concat(owned(" "), date_to_string(form.date).as_str()),
        "  (←/→ day, ↑/↓ week, {/} month)",
    );
    out.push(form_line(" date ", date, form.field == TaskFormField::Date));
    let preview = concat(owned(" "), description_preview(form.description.as_str()).as_str());
    out.push(form_line(" description ", preview, form.field == TaskFormField::Description));
    out
}

/// The error line of the task form, when it has an error.
pub fn form_error_line(form: &TaskFormState) -> (r: Option<String>)
    ensures
        r is Some <==> form.error is Some,
        r matches Some(line) ==> line@ == "error: "@ + form.error->0@,
{
    match &form.error {
        Some(error) => Some(concat(owned("error: "), error.as_str())),
        None => None,
    }
}

} // verus!
