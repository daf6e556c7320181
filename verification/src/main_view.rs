//! The main view: the rows it lists, and what a key press does there. The
//! program runs the loop: it reads a key, calls `handle_key`, saves the
//! settings when the theme changed, and stops on `MainAction::Quit`.
use vstd::prelude::*;
use crate::app::calendar::shift_month_spec;
use crate::app::search::{board_of, is_search_result, normalized_query};
use crate::app::undo::{law_recorded_last, recorded, UndoSlotView, UndoView};
use crate::app::{
    board_todos, help_toggled, index_of, law_undo_delete_restores, law_undo_toggle_restores,
    not_found_text, quit_requested, step_day, toggled, undo_spec, with_status, AppState,
    AppStateView, Overlay, UndoAction, UndoSlot,
};
use crate::date::{
    date_text, date_to_string, next_date, prev_date, time_text, time_to_string, Date, Time,
};
use crate::event_handler::{
    handle_modal_event, handle_search_key, modal_key_done, outcome, search_key_effect,
};
use crate::model::{copy_text, text_view, Priority, Status, Timestamp, Todo, TodoView, todo_views};
use crate::storage::TodoStore;
use crate::text::{concat, owned};
use crate::theme::{theme_at, theme_index};
use crate::ui_state::{
    Key, ModalState, ModalView, MoveDateState, TaskFormField, TaskFormState, TaskFormView,
    UiViewState, VisibleTodo,
};

verus! {

// ----- the rows -----

/// The label of a row: the title, then in brackets the day and, when there
/// is one, the due time.
pub open spec fn task_label(title: Seq<char>, day: Date, due: Option<Time>) -> Seq<char> {
    let when = match due {
        Some(t) => date_text(day@) + " "@ + time_text(t@),
        None => date_text(day@),
    };
    title + " ("@ + when + ")"@
}

pub fn format_task_label(title: &str, assigned_day: Date, due_time: Option<Time>) -> (r: String)
    ensures
        r@ == task_label(title@, assigned_day, due_time),
{
    let date = match due_time {
        Some(time) => {
            let day_text = concat(date_to_string(assigned_day), " ");
            concat(day_text, time_to_string(time).as_str())
        },
        None => date_to_string(assigned_day),
    };
    let label = concat(owned(title), " (");
    let label = concat(label, date.as_str());
    concat(label, ")")
}

/// `row` lists the task `t`.
pub open spec fn shows(row: VisibleTodo, t: TodoView) -> bool {
    &&& row.id == t.id
    &&& row.label@ == task_label(t.title, t.assigned_day, t.due_time)
    &&& text_view(row.description) == t.description
    &&& row.area == t.area
    &&& row.status == t.status
    &&& row.priority == t.priority
}

/// `rows` list the tasks `s`, one row per task, in order.
pub open spec fn lists(rows: Seq<VisibleTodo>, s: Seq<TodoView>) -> bool {
    &&& rows.len() == s.len()
    &&& forall|i: int| 0 <= i < s.len() ==> shows(#[trigger] rows[i], s[i])
}

/// One row per task, in order.
pub fn visible_rows_of(todos: &[Todo]) -> (r: Vec<VisibleTodo>)
    ensures
        lists(r@, todo_views(todos@)),
{
    let mut rows: Vec<VisibleTodo> = Vec::new();
    let mut i: usize = 0;
    while i < todos.len()
        invariant
            i <= todos@.len(),
            rows@.len() == i,
            forall|k: int| 0 <= k < i ==> shows(#[trigger] rows@[k], todos@[k]@),
        decreases todos@.len() - i,
    {
        let todo = &todos[i];
        rows.push(
            VisibleTodo {
                id: todo.id,
                label: format_task_label(todo.title.as_str(), todo.assigned_day, todo.due_time),
                description: copy_text(&todo.description),
                area: todo.area,
                status: todo.status,
                priority: todo.priority,
            },
        );
        i = i + 1;
    }
    rows
}

/// The rows of the task board: the tasks matching the search, ranked, then
/// laid out lane by lane without the archived ones.
pub fn visible_todos(app: &AppState) -> (r: Vec<VisibleTodo>)
    ensures
        exists|now: Timestamp, found: Seq<TodoView>|
            is_search_result(app@.todos, normalized_query(app@.search_query), found) && lists(
                r@,
                #[trigger] board_of(found, now),
            ),
{
    let board = board_todos(app.todos(), app.search_query());
    visible_rows_of(board.as_slice())
}

/// The selection kept within the rows: the last row when past the end, the
/// first when there are none.
pub open spec fn clamped(selected: int, len: int) -> int {
    if len == 0 {
        0
    } else if selected >= len {
        len - 1
    } else {
        selected
    }
}

pub fn clamp_selection(selected_index: usize, row_count: usize) -> (r: usize)
    ensures
        r == clamped(selected_index as int, row_count as int),
{
    if row_count == 0 {
        0
    } else if selected_index >= row_count {
        row_count - 1
    } else {
        selected_index
    }
}

/// The row at position `i`, if there is one.
pub open spec fn row_at(rows: Seq<VisibleTodo>, i: int) -> Option<VisibleTodo> {
    if 0 <= i < rows.len() {
        Some(rows[i])
    } else {
        None
    }
}

// ----- keys of the main view -----

/// What the program does after a key.
#[derive(Clone, Copy, Debug, PartialEq, Eq, Structural)]
pub enum MainAction {
    /// Go on reading keys.
    Continue,
    /// Leave the program.
    Quit,
    /// Go on, after saving the settings: the theme changed.
    ThemeChanged,
}

/// The overlay after a key while it is shown, and whether the key quits.
pub open spec fn overlay_key_effect(key: Key, overlay: Overlay) -> (Overlay, bool) {
    match overlay {
        Overlay::Help => if key == Key::Char('?') || key == Key::Esc {
            (Overlay::Hidden, false)
        } else if key == Key::Char('q') {
            (quit_requested(overlay), false)
        } else {
            (overlay, false)
        },
        Overlay::QuitConfirm => if key == Key::Char('y') {
            (overlay, true)
        } else if key == Key::Char('n') || key == Key::Esc {
            (Overlay::Hidden, false)
        } else {
            (overlay, false)
        },
        Overlay::Hidden => (overlay, false),
    }
}

pub fn overlay_key(key: Key, overlay: Overlay) -> (r: (Overlay, bool))
    ensures
        r == overlay_key_effect(key, overlay),
{
    match overlay {
        Overlay::Help => {
            if key == Key::Char('?') || key == Key::Esc {
                (Overlay::Hidden, false)
            } else if key == Key::Char('q') {
                (crate::app::request_quit_overlay(overlay), false)
            } else {
                (overlay, false)
            }
        },
        Overlay::QuitConfirm => {
            if key == Key::Char('y') {
                (overlay, true)
            } else if key == Key::Char('n') || key == Key::Esc {
                (Overlay::Hidden, false)
            } else {
                (overlay, false)
            }
        },
        Overlay::Hidden => (overlay, false),
    }
}

/// The view after a key that changes nothing but the view (the overlay, the
/// selection, the unfolded task, the theme), with what follows; `None` for
/// the other keys.
pub open spec fn view_key_effect(key: Key, rows: Seq<VisibleTodo>, v: UiViewState) -> Option<
    (UiViewState, MainAction),
> {
    let down = UiViewState {
        selected_index: if v.selected_index + 1 < rows.len() {
            (v.selected_index + 1) as usize
        } else {
            v.selected_index
        },
        ..v
    };
    let up = UiViewState {
        selected_index: if v.selected_index > 0 {
            (v.selected_index - 1) as usize
        } else {
            v.selected_index
        },
        ..v
    };
    let row = row_at(rows, v.selected_index as int);
    match key {
        Key::Down => Some((down, MainAction::Continue)),
        Key::Up => Some((up, MainAction::Continue)),
        Key::Char(c) => if c == 'q' {
            Some((UiViewState { overlay: quit_requested(v.overlay), ..v }, MainAction::Continue))
        } else if c == '?' {
            Some((UiViewState { overlay: help_toggled(v.overlay), ..v }, MainAction::Continue))
        } else if c == 'j' {
            Some((down, MainAction::Continue))
        } else if c == 'k' {
            Some((up, MainAction::Continue))
        } else if c == 'l' {
            Some(
                (
                    UiViewState {
                        expanded_task: match row {
                            Some(x) => if x.description is Some {
                                Some(x.id)
                            } else {
                                None
                            },
                            None => None,
                        },
                        ..v
                    },
                    MainAction::Continue,
                ),
            )
        } else if c == 'h' {
            let shown = match row {
                Some(x) => Some(x.id),
                None => None,
            };
            Some(
                (
                    if shown == v.expanded_task {
                        UiViewState { expanded_task: None, ..v }
                    } else {
                        v
                    },
                    MainAction::Continue,
                ),
            )
        } else if c == 'T' {
            Some(
                (
                    UiViewState { theme_name: theme_at(theme_index(v.theme_name) + 1), ..v },
                    MainAction::ThemeChanged,
                ),
            )
        } else if c == 'Y' {
            Some(
                (
                    UiViewState { theme_name: theme_at(theme_index(v.theme_name) + 3), ..v },
                    MainAction::ThemeChanged,
                ),
            )
        } else {
            None
        },
        _ => None,
    }
}

fn view_key(key: Key, rows: &[VisibleTodo], v: UiViewState) -> (r: Option<(UiViewState, MainAction)>)
    ensures
        r == view_key_effect(key, rows@, v),
{
    let mut w = v;
    let down = key == Key::Down || key == Key::Char('j');
    let up = key == Key::Up || key == Key::Char('k');
    if down {
        if v.selected_index < rows.len() && v.selected_index + 1 < rows.len() {
            w.selected_index = v.selected_index + 1;
        }
        return Some((w, MainAction::Continue));
    }
    if up {
        if v.selected_index > 0 {
            w.selected_index = v.selected_index - 1;
        }
        return Some((w, MainAction::Continue));
    }
    match key {
        Key::Char(c) => {
            if c == 'q' {
                w.overlay = crate::app::request_quit_overlay(v.overlay);
                Some((w, MainAction::Continue))
            } else if c == '?' {
                w.overlay = crate::app::toggle_help_overlay(v.overlay);
                Some((w, MainAction::Continue))
            } else if c == 'l' {
                w.expanded_task =
                    if v.selected_index < rows.len() {
                        if rows[v.selected_index].description.is_some() {
                            Some(rows[v.selected_index].id)
                        } else {
                            None
                        }
                    } else {
                        None
                    };
                Some((w, MainAction::Continue))
            } else if c == 'h' {
                let shown = if v.selected_index < rows.len() {
                    Some(rows[v.selected_index].id)
                } else {
                    None
                };
                if shown == v.expanded_task {
                    w.expanded_task = None;
                }
                Some((w, MainAction::Continue))
            } else if c == 'T' {
                w.theme_name = v.theme_name.next();
                Some((w, MainAction::ThemeChanged))
            } else if c == 'Y' {
                w.theme_name = v.theme_name.previous();
                Some((w, MainAction::ThemeChanged))
            } else {
                None
            }
        },
        _ => None,
    }
}

/// Which day key `key` is: 0 next day, 1 previous day, 2 next month,
/// 3 previous month, 4 today; `None` for the other keys.
pub open spec fn day_key_kind(key: Key) -> Option<int> {
    match key {
        Key::Right => Some(0),
        Key::Left => Some(1),
        Key::Char(c) => if c == ']' {
            Some(0)
        } else if c == '[' {
            Some(1)
        } else if c == '}' || c == 'L' {
            Some(2)
        } else if c == '{' || c == 'H' {
            Some(3)
        } else if c == 't' {
            Some(4)
        } else {
            None
        },
        _ => None,
    }
}

/// The selected day `d2` after the day key of kind `kind` from `d`.
pub open spec fn day_moved(kind: int, today: Date, d: Date, d2: Date) -> bool {
    if kind == 0 {
        step_day(d, next_date(d@), d2)
    } else if kind == 1 {
        step_day(d, prev_date(d@), d2)
    } else if kind == 2 {
        match shift_month_spec(d@, 1) {
            Ok(x) => d2@ == x,
            Err(_) => d2 == d,
        }
    } else if kind == 3 {
        match shift_month_spec(d@, -1) {
            Ok(x) => d2@ == x,
            Err(_) => d2 == d,
        }
    } else {
        d2 == today
    }
}

fn day_key(key: Key) -> (r: Option<u8>)
    ensures
        r matches Some(k) ==> day_key_kind(key) == Some(k as int),
        r is None ==> day_key_kind(key) is None,
{
    match key {
        Key::Right => Some(0),
        Key::Left => Some(1),
        Key::Char(c) => {
            if c == ']' {
                Some(0)
            } else if c == '[' {
                Some(1)
            } else if c == '}' || c == 'L' {
                Some(2)
            } else if c == '{' || c == 'H' {
                Some(3)
            } else if c == 't' {
                Some(4)
            } else {
                None
            }
        },
        _ => None,
    }
}

/// The form that edits the task `t`.
pub open spec fn edit_form(t: TodoView) -> TaskFormView {
    TaskFormView {
        todo_id: Some(t.id),
        title: t.title,
        priority: t.priority,
        date: t.assigned_day,
        description: match t.description {
            Some(d) => d,
            None => Seq::<char>::empty(),
        },
        field: TaskFormField::Title,
        error: None,
    }
}

/// The dialog a key opens over the main view (`m` when the selected row's
/// task cannot be found); `None` for keys that open none.
pub open spec fn dialog_key_effect(
    key: Key,
    rows: Seq<VisibleTodo>,
    v: UiViewState,
    a: AppStateView,
    m: ModalView,
) -> Option<ModalView> {
    let found = match row_at(rows, v.selected_index as int) {
        Some(x) => index_of(a.todos, x.id),
        None => None,
    };
    if key == Key::Char('a') {
        Some(
            ModalView::TaskForm(
                TaskFormView {
                    todo_id: None,
                    title: Seq::<char>::empty(),
                    priority: Priority::Medium,
                    date: a.selected_day,
                    description: Seq::<char>::empty(),
                    field: TaskFormField::Title,
                    error: None,
                },
            ),
        )
    } else if key == Key::Char('e') {
        Some(
            match found {
                Some(i) => ModalView::TaskForm(edit_form(a.todos[i])),
                None => m,
            },
        )
    } else if key == Key::Char('m') {
        Some(
            match found {
                Some(i) => ModalView::MoveDate {
                    todo_id: a.todos[i].id,
                    date: a.todos[i].assigned_day,
                },
                None => m,
            },
        )
    } else {
        None
    }
}

/// A key that changes the tasks: undo, delete, or toggle done.
pub open spec fn is_change_key(key: Key) -> bool {
    key == Key::Char('u') || key == Key::Char('d') || key == Key::Enter || key == Key::Char(' ')
}

/// The result and the store after the changed tasks `tasks` were handed to
/// the store (`s` before, `s2` after): on success the store holds them and
/// the program goes on; on failure the store holds what it held and the
/// result carries the store's message.
pub open spec fn saved_then_continue(
    r: Result<MainAction, Seq<char>>,
    s: Seq<TodoView>,
    s2: Seq<TodoView>,
    tasks: Seq<TodoView>,
) -> bool {
    &&& r is Ok ==> r == Ok::<MainAction, Seq<char>>(MainAction::Continue) && s2 == tasks
    &&& r is Err ==> s2 == s
}

/// What a change key does to the tasks `a` and the undo history `u`: undo
/// takes back the latest record; delete and toggle act on the selected row's
/// task and record how to take that back. A task that cannot be found is an
/// error that changes nothing; a change is handed to the store, whose tasks
/// go from `s` to `s2`, and nothing else is.
pub open spec fn change_key_done(
    key: Key,
    rows: Seq<VisibleTodo>,
    v: UiViewState,
    a: AppStateView,
    u: UndoSlotView,
    s: Seq<TodoView>,
    a2: AppStateView,
    u2: UndoSlotView,
    s2: Seq<TodoView>,
    r: Result<MainAction, Seq<char>>,
) -> bool {
    let nothing = a2 == a && u2 == u && s2 == s && r == Ok::<MainAction, Seq<char>>(
        MainAction::Continue,
    );
    let missing = a2 == a && u2 == u && s2 == s && r == Err::<MainAction, Seq<char>>(
        not_found_text(),
    );
    if key == Key::Char('u') {
        if u.pending.len() == 0 {
            nothing
        } else {
            &&& u2 == UndoSlotView { pending: u.pending.drop_last(), capacity: u.capacity }
            &&& match undo_spec(a.todos, u.pending.last()@) {
                None => a2 == a && s2 == s && r == Err::<MainAction, Seq<char>>(not_found_text()),
                Some(t) => a2 == AppStateView { todos: t, ..a } && saved_then_continue(
                    r,
                    s,
                    s2,
                    a2.todos,
                ),
            }
        }
    } else {
        match row_at(rows, v.selected_index as int) {
            None => nothing,
            Some(x) => match index_of(a.todos, x.id) {
                None => missing,
                Some(i) => if key == Key::Char('d') {
                    &&& a2 == AppStateView { todos: a.todos.remove(i), ..a }
                    &&& exists|undo: UndoAction|
                        #![trigger recorded(u.pending, undo, u.capacity)]
                        undo@ == (UndoView::Delete { todo: a.todos[i], index: i }) && u2
                            == (UndoSlotView {
                            pending: recorded(u.pending, undo, u.capacity),
                            capacity: u.capacity,
                        })
                    &&& saved_then_continue(r, s, s2, a2.todos)
                } else {
                    let t = a.todos[i];
                    let c = a2.todos[i].completed_at;
                    &&& a2 == AppStateView {
                        todos: a.todos.update(i, with_status(t, toggled(t.status), c)),
                        ..a
                    }
                    &&& (c is None <==> t.status == Status::Done)
                    &&& u2 == UndoSlotView {
                        pending: recorded(
                            u.pending,
                            UndoAction::Toggle {
                                id: x.id,
                                previous_status: t.status,
                                previous_completed_at: t.completed_at,
                            },
                            u.capacity,
                        ),
                        capacity: u.capacity,
                    }
                    &&& saved_then_continue(r, s, s2, a2.todos)
                },
            },
        }
    }
}

/// What a key does on the main view itself (no dialog, no overlay, not
/// taken by the search line).
pub open spec fn browse_key_done(
    key: Key,
    today: Date,
    rows: Seq<VisibleTodo>,
    a: AppStateView,
    v: UiViewState,
    m: ModalView,
    u: UndoSlotView,
    s: Seq<TodoView>,
    a2: AppStateView,
    v2: UiViewState,
    m2: ModalView,
    u2: UndoSlotView,
    s2: Seq<TodoView>,
    r: Result<MainAction, Seq<char>>,
) -> bool {
    let go_on = r == Ok::<MainAction, Seq<char>>(MainAction::Continue) && s2 == s;
    if key == Key::Esc {
        &&& if a.search_active {
            a2 == AppStateView {
                search_active: false,
                search_query: Seq::<char>::empty(),
                ..a
            } && v2 == v
        } else {
            a2 == a && v2 == UiViewState { overlay: Overlay::QuitConfirm, ..v }
        }
        &&& m2 == m
        &&& u2 == u
        &&& go_on
    } else {
        match view_key_effect(key, rows, v) {
            Some(effect) => v2 == effect.0 && a2 == a && m2 == m && u2 == u && s2 == s && r
                == Ok::<MainAction, Seq<char>>(effect.1),
            None => match day_key_kind(key) {
                Some(kind) => {
                    &&& a2 == AppStateView { selected_day: a2.selected_day, ..a }
                    &&& day_moved(kind, today, a.selected_day, a2.selected_day)
                    &&& v2 == UiViewState { selected_index: 0, ..v }
                    &&& m2 == m
                    &&& u2 == u
                    &&& go_on
                },
                None => match dialog_key_effect(key, rows, v, a, m) {
                    Some(opened) => m2 == opened && a2 == a && v2 == v && u2 == u && go_on,
                    None => if is_change_key(key) {
                        v2 == v && m2 == m && change_key_done(key, rows, v, a, u, s, a2, u2, s2, r)
                    } else {
                        a2 == a && v2 == v && m2 == m && u2 == u && go_on
                    },
                },
            },
        }
    }
}

/// A result of the main view with its message taken as a character sequence.
pub open spec fn main_outcome(r: Result<MainAction, String>) -> Result<MainAction, Seq<char>> {
    match r {
        Ok(x) => Ok(x),
        Err(e) => Err(e@),
    }
}

/// The dialog's result seen as the main view's: success goes on.
pub open spec fn as_dialog_outcome(r: Result<MainAction, Seq<char>>) -> Result<(), Seq<char>> {
    match r {
        Ok(_) => Ok(()),
        Err(e) => Err(e),
    }
}

/// What one key press does: an open dialog takes it; else a shown overlay
/// does; else the search line, when it takes it; else the main view.
pub open spec fn key_done(
    key: Key,
    today: Date,
    rows: Seq<VisibleTodo>,
    a: AppStateView,
    v: UiViewState,
    m: ModalView,
    u: UndoSlotView,
    s: Seq<TodoView>,
    a2: AppStateView,
    v2: UiViewState,
    m2: ModalView,
    u2: UndoSlotView,
    s2: Seq<TodoView>,
    r: Result<MainAction, Seq<char>>,
) -> bool {
    if m != ModalView::Closed {
        &&& v2 == v
        &&& modal_key_done(key, m, a, u, s, m2, a2, u2, s2, as_dialog_outcome(r))
        &&& (r is Ok ==> r == Ok::<MainAction, Seq<char>>(MainAction::Continue))
    } else if v.overlay != Overlay::Hidden {
        let effect = overlay_key_effect(key, v.overlay);
        &&& v2 == UiViewState { overlay: effect.0, ..v }
        &&& a2 == a
        &&& m2 == m
        &&& u2 == u
        &&& s2 == s
        &&& r == Ok::<MainAction, Seq<char>>(
            if effect.1 {
                MainAction::Quit
            } else {
                MainAction::Continue
            },
        )
    } else if search_key_effect(key, a).0 {
        &&& a2 == search_key_effect(key, a).1
        &&& v2 == v
        &&& m2 == m
        &&& u2 == u
        &&& s2 == s
        &&& r == Ok::<MainAction, Seq<char>>(MainAction::Continue)
    } else {
        browse_key_done(key, today, rows, a, v, m, u, s, a2, v2, m2, u2, s2, r)
    }
}

fn open_dialog(key: Key, rows: &[VisibleTodo], v: UiViewState, app: &AppState, modal: &mut ModalState)
    -> (r: bool)
    ensures
        r <==> dialog_key_effect(key, rows@, v, app@, old(modal)@) is Some,
        r ==> final(modal)@ == dialog_key_effect(key, rows@, v, app@, old(modal)@)->0,
        !r ==> final(modal)@ == old(modal)@,
{
    if key == Key::Char('a') {
        *modal = ModalState::TaskForm(
            TaskFormState {
                todo_id: None,
                title: String::new(),
                priority: Priority::Medium,
                date: app.selected_day(),
                description: String::new(),
                field: TaskFormField::Title,
                error: None,
            },
        );
        return true;
    }
    if key != Key::Char('e') && key != Key::Char('m') {
        return false;
    }
    if v.selected_index < rows.len() {
        match app.todo(rows[v.selected_index].id) {
            Some(todo) => {
                if key == Key::Char('e') {
                    let description = match &todo.description {
                        Some(d) => d.clone(),
                        None => String::new(),
                    };
                    *modal = ModalState::TaskForm(
                        TaskFormState {
                            todo_id: Some(todo.id),
                            title: todo.title.clone(),
                            priority: todo.priority,
                            date: todo.assigned_day,
                            description,
                            field: TaskFormField::Title,
                            error: None,
                        },
                    );
                } else {
                    *modal = ModalState::MoveDate(
                        MoveDateState { todo_id: todo.id, date: todo.assigned_day },
                    );
                }
            },
            None => {},
        }
    }
    true
}

fn change_key<S: TodoStore>(
    key: Key,
    rows: &[VisibleTodo],
    v: UiViewState,
    app: &mut AppState,
    undo_slot: &mut UndoSlot,
    store: &mut S,
) -> (r: Result<MainAction, String>)
    requires
        is_change_key(key),
    ensures
        change_key_done(
            key,
            rows@,
            v,
            old(app)@,
            old(undo_slot)@,
            old(store).contents(),
            final(app)@,
            final(undo_slot)@,
            final(store).contents(),
            main_outcome(r),
        ),
{
    if key == Key::Char('u') {
        match undo_slot.take() {
            None => Ok(MainAction::Continue),
            Some(undo) => {
                if let Err(e) = app.apply_undo(undo) {
                    return Err(e);
                }
                match store.save(app.todos()) {
                    Ok(()) => Ok(MainAction::Continue),
                    Err(e) => Err(e),
                }
            },
        }
    } else {
        if v.selected_index >= rows.len() {
            return Ok(MainAction::Continue);
        }
        let id = rows[v.selected_index].id;
        let ghost a = app@;
        let ghost u = undo_slot@;
        let changed = if key == Key::Char('d') {
            app.delete_todo_with_undo(id)
        } else {
            app.toggle_done_with_undo(id)
        };
        match changed {
            Err(e) => Err(e),
            Ok(undo) => {
                undo_slot.record(undo);
                proof {
                    if key == Key::Char('d') {
                        assert(recorded(u.pending, undo, u.capacity) == undo_slot@.pending);
                    }
                }
                match store.save(app.todos()) {
                    Ok(()) => Ok(MainAction::Continue),
                    Err(e) => Err(e),
                }
            },
        }
    }
}

/// Applies one key press to the program's state. `rows` are the rows the
/// main view shows (`visible_todos` of the tasks), `today` the current day;
/// the tasks are saved to `store` whenever they change.
pub fn handle_key<S: TodoStore>(
    key: Key,
    today: Date,
    rows: &[VisibleTodo],
    app: &mut AppState,
    view: &mut UiViewState,
    modal: &mut ModalState,
    undo_slot: &mut UndoSlot,
    store: &mut S,
) -> (r: Result<MainAction, String>)
    ensures
        key_done(
            key,
            today,
            rows@,
            old(app)@,
            *old(view),
            old(modal)@,
            old(undo_slot)@,
            old(store).contents(),
            final(app)@,
            *final(view),
            final(modal)@,
            final(undo_slot)@,
            final(store).contents(),
            main_outcome(r),
        ),
{
    let open = match modal {
        ModalState::Closed => false,
        _ => true,
    };
    if open {
        return match handle_modal_event(key, modal, app, store, undo_slot) {
            Ok(()) => Ok(MainAction::Continue),
            Err(e) => Err(e),
        };
    }
    if view.overlay != Overlay::Hidden {
        let (overlay, quit) = overlay_key(key, view.overlay);
        view.overlay = overlay;
        return Ok(
            if quit {
                MainAction::Quit
            } else {
                MainAction::Continue
            },
        );
    }
    if handle_search_key(key, app) {
        return Ok(MainAction::Continue);
    }
    if key == Key::Esc {
        if app.search_active() {
            app.cancel_search();
        } else {
            view.overlay = Overlay::QuitConfirm;
        }
        return Ok(MainAction::Continue);
    }
    let v = *view;
    match view_key(key, rows, v) {
        Some((next, action)) => {
            *view = next;
            return Ok(action);
        },
        None => {},
    }
    match day_key(key) {
        Some(kind) => {
            if kind == 0 {
                app.select_next_day();
            } else if kind == 1 {
                app.select_prev_day();
            } else if kind == 2 {
                app.select_next_month();
            } else if kind == 3 {
                app.select_prev_month();
            } else {
                app.set_selected_day(today);
            }
            view.selected_index = 0;
            return Ok(MainAction::Continue);
        },
        None => {},
    }
    if open_dialog(key, rows, v, app, modal) {
        return Ok(MainAction::Continue);
    }
    if key == Key::Char('u') || key == Key::Char('d') || key == Key::Enter || key == Key::Char(' ') {
        return change_key(key, rows, v, app, undo_slot, store);
    }
    Ok(MainAction::Continue)
}


/// While a search is being typed, every key goes to the search line: no
/// task, dialog, undo record or stored task changes, the day and the view
/// stay, and the program goes on.
pub proof fn law_search_mode_protects_tasks(
    key: Key,
    today: Date,
    rows: Seq<VisibleTodo>,
    a: AppStateView,
    v: UiViewState,
    m: ModalView,
    u: UndoSlotView,
    s: Seq<TodoView>,
    a2: AppStateView,
    v2: UiViewState,
    m2: ModalView,
    u2: UndoSlotView,
    s2: Seq<TodoView>,
    r: Result<MainAction, Seq<char>>,
)
    requires
        m == ModalView::Closed,
        v.overlay == Overlay::Hidden,
        a.search_active,
        key_done(key, today, rows, a, v, m, u, s, a2, v2, m2, u2, s2, r),
    ensures
        a2.todos == a.todos,
        a2.selected_day == a.selected_day,
        v2 == v,
        m2 == m,
        u2 == u,
        s2 == s,
        r == Ok::<MainAction, Seq<char>>(MainAction::Continue),
{
}

/// Escape while searching empties the search and leaves search mode.
pub proof fn law_escape_clears_search(a: AppStateView)
    requires
        a.search_active,
    ensures
        search_key_effect(Key::Esc, a).0,
        !search_key_effect(Key::Esc, a).1.search_active,
        search_key_effect(Key::Esc, a).1.search_query == Seq::<char>::empty(),
        search_key_effect(Key::Esc, a).1.todos == a.todos,
{
}

/// An open dialog takes every key: the view under it stays as it was.
pub proof fn law_dialog_takes_keys(
    key: Key,
    today: Date,
    rows: Seq<VisibleTodo>,
    a: AppStateView,
    v: UiViewState,
    m: ModalView,
    u: UndoSlotView,
    s: Seq<TodoView>,
    a2: AppStateView,
    v2: UiViewState,
    m2: ModalView,
    u2: UndoSlotView,
    s2: Seq<TodoView>,
    r: Result<MainAction, Seq<char>>,
)
    requires
        m != ModalView::Closed,
        key_done(key, today, rows, a, v, m, u, s, a2, v2, m2, u2, s2, r),
    ensures
        v2 == v,
        r is Ok ==> r == Ok::<MainAction, Seq<char>>(MainAction::Continue),
{
}


/// Deleting or toggling the selected task and then pressing `u` gives the
/// tasks back exactly as they were; each step that succeeds leaves the store
/// holding the tasks of that moment, so after both the store holds the tasks
/// as they were.
pub proof fn law_change_then_undo(
    key: Key,
    rows: Seq<VisibleTodo>,
    v: UiViewState,
    a: AppStateView,
    u: UndoSlotView,
    s: Seq<TodoView>,
    a2: AppStateView,
    u2: UndoSlotView,
    s2: Seq<TodoView>,
    r2: Result<MainAction, Seq<char>>,
    a3: AppStateView,
    u3: UndoSlotView,
    s3: Seq<TodoView>,
    r3: Result<MainAction, Seq<char>>,
)
    requires
        key == Key::Char('d') || key == Key::Enter || key == Key::Char(' '),
        1 <= u.capacity,
        u.pending.len() <= u.capacity,
        row_at(rows, v.selected_index as int) matches Some(x) && index_of(a.todos, x.id) is Some,
        change_key_done(key, rows, v, a, u, s, a2, u2, s2, r2),
        change_key_done(Key::Char('u'), rows, v, a2, u2, s2, a3, u3, s3, r3),
    ensures
        a3 == a,
        r2 is Ok ==> s2 == a2.todos,
        r3 is Ok ==> s3 == a.todos,
{
    let x = row_at(rows, v.selected_index as int)->0;
    let i = index_of(a.todos, x.id)->0;
    if key == Key::Char('d') {
        let undo = choose|undo: UndoAction|
            #![trigger recorded(u.pending, undo, u.capacity)]
            undo@ == (UndoView::Delete { todo: a.todos[i], index: i }) && u2 == (UndoSlotView {
                pending: recorded(u.pending, undo, u.capacity),
                capacity: u.capacity,
            });
        law_recorded_last(u.pending, undo, u.capacity);
        law_undo_delete_restores(a.todos, x.id);
    } else {
        let c = a2.todos[i].completed_at;
        let t = a.todos[i];
        let undo = UndoAction::Toggle {
            id: x.id,
            previous_status: t.status,
            previous_completed_at: t.completed_at,
        };
        law_recorded_last(u.pending, undo, u.capacity);
        law_undo_toggle_restores(a.todos, x.id, c);
    }
}


/// On the main view (no dialog, no overlay, no search), `Right` and `]`
/// select the day after the selected one and `Left` and `[` the day before
/// (staying put at either end of the calendar); `L` and `}` move a month
/// on and `H` and `{` a month back; `t` selects today. The tasks, the
/// dialog, the undo history and the store stay, and the selection goes back
/// to the first row.
pub proof fn law_day_keys_step(
    key: Key,
    today: Date,
    rows: Seq<VisibleTodo>,
    a: AppStateView,
    v: UiViewState,
    m: ModalView,
    u: UndoSlotView,
    s: Seq<TodoView>,
    a2: AppStateView,
    v2: UiViewState,
    m2: ModalView,
    u2: UndoSlotView,
    s2: Seq<TodoView>,
    r: Result<MainAction, Seq<char>>,
)
    requires
        m == ModalView::Closed,
        v.overlay == Overlay::Hidden,
        !a.search_active,
        key_done(key, today, rows, a, v, m, u, s, a2, v2, m2, u2, s2, r),
    ensures
        key == Key::Right || key == Key::Char(']') ==> step_day(
            a.selected_day,
            next_date(a.selected_day@),
            a2.selected_day,
        ),
        key == Key::Left || key == Key::Char('[') ==> step_day(
            a.selected_day,
            prev_date(a.selected_day@),
            a2.selected_day,
        ),
        key == Key::Char('L') || key == Key::Char('}') ==> match shift_month_spec(
            a.selected_day@,
            1,
        ) {
            Ok(x) => a2.selected_day@ == x,
            Err(_) => a2.selected_day == a.selected_day,
        },
        key == Key::Char('H') || key == Key::Char('{') ==> match shift_month_spec(
            a.selected_day@,
            -1,
        ) {
            Ok(x) => a2.selected_day@ == x,
            Err(_) => a2.selected_day == a.selected_day,
        },
        key == Key::Char('t') ==> a2.selected_day == today,
        key == Key::Right || key == Key::Char(']') || key == Key::Left || key == Key::Char('[')
            || key == Key::Char('L') || key == Key::Char('}') || key == Key::Char('H') || key
            == Key::Char('{') || key == Key::Char('t') ==> {
            &&& a2.todos == a.todos
            &&& m2 == m
            &&& u2 == u
            &&& s2 == s
            &&& v2.selected_index == 0
            &&& r == Ok::<MainAction, Seq<char>>(MainAction::Continue)
        },
{
}

} // verus!
