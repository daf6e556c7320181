//! What a key press does to the search line and to the open dialog.
use vstd::prelude::*;
use crate::app::calendar::shift_month_spec;
use crate::app::quick_add::{quick_add_spec, QuickAddView};
use crate::app::undo::{recorded, UndoSlotView};
use crate::app::{
    index_of, not_found_text, parse_quick_add, shift_month_date, AppState, AppStateView, moved,
    edited, fresh_todo, only_todos_changed, UndoAction, UndoSlot,
};
use crate::date::{
    checked_add_days, checked_sub_days, date_of, day_number, days_earlier, days_later,
    first_day_number, last_day_number, time_of, Date,
    DateView, Time,
};
use crate::model::{Priority, TodoId, TodoView};
use crate::storage::TodoStore;
use crate::text::{
    char_is_control, concat, is_blank, is_control, owned, pop_char, push_char, string_of, to_chars,
    trim, trimmed,
};
use crate::ui_state::{
    DescriptionEditorState, Key, ModalState, ModalView, MoveDateState, TaskFormField,
    TaskFormState, TaskFormView,
};

verus! {

/// The field after `field` in the form's tab order, wrapping around.
pub open spec fn field_after(field: TaskFormField) -> TaskFormField {
    match field {
        TaskFormField::Title => TaskFormField::Priority,
        TaskFormField::Priority => TaskFormField::Date,
        TaskFormField::Date => TaskFormField::Description,
        TaskFormField::Description => TaskFormField::Title,
    }
}

/// The field before `field` in the form's tab order, wrapping around.
pub open spec fn field_before(field: TaskFormField) -> TaskFormField {
    match field {
        TaskFormField::Title => TaskFormField::Description,
        TaskFormField::Priority => TaskFormField::Title,
        TaskFormField::Date => TaskFormField::Priority,
        TaskFormField::Description => TaskFormField::Date,
    }
}

/// One step down in priority; `Low` stays.
pub open spec fn priority_lowered(priority: Priority) -> Priority {
    match priority {
        Priority::High => Priority::Medium,
        Priority::Medium => Priority::Low,
        Priority::Low => Priority::Low,
    }
}

/// One step up in priority; `High` stays.
pub open spec fn priority_raised(priority: Priority) -> Priority {
    match priority {
        Priority::High => Priority::High,
        Priority::Medium => Priority::High,
        Priority::Low => Priority::Medium,
    }
}

pub fn next_field(field: TaskFormField) -> (r: TaskFormField)
    ensures
        r == field_after(field),
{
    match field {
        TaskFormField::Title => TaskFormField::Priority,
        TaskFormField::Priority => TaskFormField::Date,
        TaskFormField::Date => TaskFormField::Description,
        TaskFormField::Description => TaskFormField::Title,
    }
}

pub fn prev_field(field: TaskFormField) -> (r: TaskFormField)
    ensures
        r == field_before(field),
{
    match field {
        TaskFormField::Title => TaskFormField::Description,
        TaskFormField::Priority => TaskFormField::Title,
        TaskFormField::Date => TaskFormField::Priority,
        TaskFormField::Description => TaskFormField::Date,
    }
}

pub fn next_priority(priority: Priority) -> (r: Priority)
    ensures
        r == priority_lowered(priority),
{
    match priority {
        Priority::High => Priority::Medium,
        Priority::Medium => Priority::Low,
        Priority::Low => Priority::Low,
    }
}

pub fn prev_priority(priority: Priority) -> (r: Priority)
    ensures
        r == priority_raised(priority),
{
    match priority {
        Priority::High => Priority::High,
        Priority::Medium => Priority::High,
        Priority::Low => Priority::Medium,
    }
}

/// Tab and back-tab undo each other, and four tabs come back to the start.
pub proof fn law_field_cycle(field: TaskFormField)
    ensures
        field_before(field_after(field)) == field,
        field_after(field_before(field)) == field,
        field_after(field_after(field_after(field_after(field)))) == field,
{
}

/// Lowering then raising the priority restores it, except from `Low`, where
/// lowering stays; the priority never leaves the three levels' ends.
pub proof fn law_priority_steps(priority: Priority)
    ensures
        priority != Priority::Low ==> priority_raised(priority_lowered(priority)) == priority,
        priority != Priority::High ==> priority_lowered(priority_raised(priority)) == priority,
        priority_lowered(Priority::Low) == Priority::Low,
        priority_raised(Priority::High) == Priority::High,
{
}

/// The day `delta` days from `d`, or `d` itself when that day cannot be had.
pub open spec fn days_shifted(d: DateView, delta: int) -> DateView {
    if delta >= 0 {
        match days_later(d, delta) {
            Some(x) => x,
            None => d,
        }
    } else {
        match days_earlier(d, -delta) {
            Some(x) => x,
            None => d,
        }
    }
}

/// The same day `delta` months from `d` (clamped to the month's length), or
/// `d` itself when that month cannot be had.
pub open spec fn months_shifted(d: DateView, delta: int) -> DateView {
    match shift_month_spec(d, delta) {
        Ok(x) => x,
        Err(_) => d,
    }
}

/// The date `delta` days from `day`, or `day` when out of range.
pub fn shift_days(day: Date, delta_days: i64) -> (r: Date)
    requires
        delta_days > i64::MIN,
    ensures
        r@ == days_shifted(day@, delta_days as int),
        0 <= delta_days <= i32::MAX && day_number(day@) + delta_days <= last_day_number()
            ==> day_number(r@) == day_number(day@) + delta_days,
        0 < -delta_days <= i32::MAX && day_number(day@) + delta_days >= first_day_number()
            ==> day_number(r@) == day_number(day@) + delta_days,
        delta_days >= 0 && day_number(day@) + delta_days > last_day_number() ==> r == day,
        delta_days < 0 && day_number(day@) + delta_days < first_day_number() ==> r == day,
{
    if delta_days >= 0 {
        let abs: u64 = delta_days as u64;
        match checked_add_days(day, abs) {
            Some(next) => next,
            None => day,
        }
    } else {
        let abs: u64 = (-delta_days) as u64;
        match checked_sub_days(day, abs) {
            Some(prev) => prev,
            None => day,
        }
    }
}

/// The date `delta` months from `day`, or `day` when out of range.
fn shift_months_or_keep(day: Date, delta: i32) -> (r: Date)
    ensures
        r@ == months_shifted(day@, delta as int),
{
    match shift_month_date(day, delta) {
        Ok(moved_day) => moved_day,
        Err(_) => day,
    }
}

/// The date `delta` days from `d`, as a date.
pub open spec fn day_step(d: Date, delta: int) -> Date {
    date_of(days_shifted(d@, delta))
}

/// The date `delta` months from `d`, as a date.
pub open spec fn month_step(d: Date, delta: int) -> Date {
    date_of(months_shifted(d@, delta))
}

proof fn lemma_shifted_is(r: Date, d: DateView)
    requires
        r@ == d,
    ensures
        r == date_of(d),
{
    Date::lemma_date_of(r);
}

// ----- the search line -----

/// What a key does while searching or before: it says whether the key was
/// taken, and the state after it.
pub open spec fn search_key_effect(key: Key, a: AppStateView) -> (bool, AppStateView) {
    if a.search_active {
        match key {
            Key::Esc => (
                true,
                AppStateView { search_active: false, search_query: Seq::<char>::empty(), ..a },
            ),
            Key::Backspace => (
                true,
                AppStateView {
                    search_query: if a.search_query.len() > 0 {
                        a.search_query.drop_last()
                    } else {
                        a.search_query
                    },
                    ..a
                },
            ),
            Key::Char(c) => if !is_control(c) {
                (
                    true,
                    AppStateView { search_active: true, search_query: a.search_query.push(c), ..a },
                )
            } else {
                (true, a)
            },
            _ => (true, a),
        }
    } else if key == Key::Char('/') {
        (true, AppStateView { search_active: true, ..a })
    } else {
        (false, a)
    }
}

/// While searching every key goes to the search line; otherwise `/` starts
/// a search. Returns whether the key was taken.
pub fn handle_search_key(key: Key, app: &mut AppState) -> (r: bool)
    ensures
        r == search_key_effect(key, old(app)@).0,
        final(app)@ == search_key_effect(key, old(app)@).1,
{
    if app.search_active() {
        match key {
            Key::Esc => {
                app.clear_search();
                true
            },
            Key::Backspace => {
                app.pop_search_char();
                true
            },
            Key::Char(c) => {
                if !char_is_control(c) {
                    app.append_search_char(c);
                }
                true
            },
            _ => true,
        }
    } else if key == Key::Char('/') {
        app.activate_search();
        true
    } else {
        false
    }
}


// ----- the dialogs -----

/// `s` without its last character, if it has one.
pub open spec fn text_popped(s: Seq<char>) -> Seq<char> {
    if s.len() > 0 {
        s.drop_last()
    } else {
        s
    }
}

/// The move dialog after a key other than Enter.
pub open spec fn move_date_after(key: Key, id: TodoId, d: Date) -> ModalView {
    let stay = ModalView::MoveDate { todo_id: id, date: d };
    match key {
        Key::Esc => ModalView::Closed,
        Key::Left => ModalView::MoveDate { todo_id: id, date: day_step(d, -1) },
        Key::Right => ModalView::MoveDate { todo_id: id, date: day_step(d, 1) },
        Key::Up => ModalView::MoveDate { todo_id: id, date: day_step(d, -7) },
        Key::Down => ModalView::MoveDate { todo_id: id, date: day_step(d, 7) },
        Key::Char(c) => if c == '{' || c == 'H' {
            ModalView::MoveDate { todo_id: id, date: month_step(d, -1) }
        } else if c == '}' || c == 'L' {
            ModalView::MoveDate { todo_id: id, date: month_step(d, 1) }
        } else {
            stay
        },
        _ => stay,
    }
}

/// The notes editor after a key: Esc goes back to the form unchanged, F2
/// hands the draft to the form, and the other keys edit the draft.
pub open spec fn editor_after(key: Key, parent: TaskFormView, draft: Seq<char>) -> ModalView {
    let stay = ModalView::DescriptionEditor { parent, draft };
    match key {
        Key::Esc => ModalView::TaskForm(parent),
        Key::F(n) => if n == 2 {
            ModalView::TaskForm(
                TaskFormView {
                    description: draft,
                    field: TaskFormField::Description,
                    error: None,
                    ..parent
                },
            )
        } else {
            stay
        },
        Key::Enter => ModalView::DescriptionEditor { parent, draft: draft.push('\n') },
        Key::Backspace => ModalView::DescriptionEditor { parent, draft: text_popped(draft) },
        Key::Tab => ModalView::DescriptionEditor { parent, draft: draft + "    "@ },
        Key::Char(c) => if !is_control(c) {
            ModalView::DescriptionEditor { parent, draft: draft.push(c) }
        } else {
            stay
        },
        _ => stay,
    }
}

/// The task form after a key, for every key but an Enter that submits it.
pub open spec fn form_after(key: Key, f: TaskFormView) -> ModalView {
    let stay = ModalView::TaskForm(f);
    match key {
        Key::Esc => ModalView::Closed,
        Key::Tab => ModalView::TaskForm(
            TaskFormView { field: field_after(f.field), error: None, ..f },
        ),
        Key::BackTab => ModalView::TaskForm(
            TaskFormView { field: field_before(f.field), error: None, ..f },
        ),
        Key::Enter => if f.field == TaskFormField::Description {
            ModalView::DescriptionEditor { parent: f, draft: f.description }
        } else {
            stay
        },
        Key::Backspace => if f.field == TaskFormField::Title {
            ModalView::TaskForm(TaskFormView { title: text_popped(f.title), ..f })
        } else if f.field == TaskFormField::Description {
            ModalView::TaskForm(TaskFormView { description: text_popped(f.description), ..f })
        } else {
            stay
        },
        Key::Left => if f.field == TaskFormField::Priority {
            ModalView::TaskForm(TaskFormView { priority: priority_raised(f.priority), ..f })
        } else if f.field == TaskFormField::Date {
            ModalView::TaskForm(TaskFormView { date: day_step(f.date, -1), ..f })
        } else {
            stay
        },
        Key::Right => if f.field == TaskFormField::Priority {
            ModalView::TaskForm(TaskFormView { priority: priority_lowered(f.priority), ..f })
        } else if f.field == TaskFormField::Date {
            ModalView::TaskForm(TaskFormView { date: day_step(f.date, 1), ..f })
        } else {
            stay
        },
        Key::Up => if f.field == TaskFormField::Date {
            ModalView::TaskForm(TaskFormView { date: day_step(f.date, -7), ..f })
        } else {
            stay
        },
        Key::Down => if f.field == TaskFormField::Date {
            ModalView::TaskForm(TaskFormView { date: day_step(f.date, 7), ..f })
        } else {
            stay
        },
        Key::Char(c) => if f.field == TaskFormField::Date && (c == '{' || c == 'H') {
            ModalView::TaskForm(TaskFormView { date: month_step(f.date, -1), ..f })
        } else if f.field == TaskFormField::Date && (c == '}' || c == 'L') {
            ModalView::TaskForm(TaskFormView { date: month_step(f.date, 1), ..f })
        } else if f.field == TaskFormField::Title && !is_control(c) {
            ModalView::TaskForm(TaskFormView { title: f.title.push(c), ..f })
        } else if f.field == TaskFormField::Description && !is_control(c) {
            ModalView::TaskForm(TaskFormView { description: f.description.push(c), ..f })
        } else {
            stay
        },
        _ => stay,
    }
}

/// Whether `key` submits the dialog `m`: Enter in the move dialog, or in the
/// task form away from the notes field.
pub open spec fn saves(key: Key, m: ModalView) -> bool {
    key == Key::Enter && (m is MoveDate || (m matches ModalView::TaskForm(f) && f.field
        != TaskFormField::Description))
}

/// The dialog after a key that does not submit it.
pub open spec fn modal_after(key: Key, m: ModalView) -> ModalView {
    match m {
        ModalView::Closed => ModalView::Closed,
        ModalView::MoveDate { todo_id, date } => move_date_after(key, todo_id, date),
        ModalView::DescriptionEditor { parent, draft } => editor_after(key, parent, draft),
        ModalView::TaskForm(f) => form_after(key, f),
    }
}

fn move_date_key(key: Key, state: MoveDateState) -> (r: ModalState)
    requires
        key != Key::Enter,
    ensures
        r@ == move_date_after(key, state.todo_id, state.date),
{
    let id = state.todo_id;
    let d = state.date;
    let delta_days: i64 = match key {
        Key::Left => -1,
        Key::Right => 1,
        Key::Up => -7,
        Key::Down => 7,
        _ => 0,
    };
    if delta_days != 0 {
        let next = shift_days(d, delta_days);
        proof {
            lemma_shifted_is(next, days_shifted(d@, delta_days as int));
        }
        return ModalState::MoveDate(MoveDateState { todo_id: id, date: next });
    }
    match key {
        Key::Esc => ModalState::Closed,
        Key::Char(c) => {
            if c == '{' || c == 'H' {
                let next = shift_months_or_keep(d, -1);
                proof {
                    lemma_shifted_is(next, months_shifted(d@, -1));
                }
                ModalState::MoveDate(MoveDateState { todo_id: id, date: next })
            } else if c == '}' || c == 'L' {
                let next = shift_months_or_keep(d, 1);
                proof {
                    lemma_shifted_is(next, months_shifted(d@, 1));
                }
                ModalState::MoveDate(MoveDateState { todo_id: id, date: next })
            } else {
                ModalState::MoveDate(state)
            }
        },
        _ => ModalState::MoveDate(state),
    }
}

fn description_editor_key(key: Key, state: DescriptionEditorState) -> (r: ModalState)
    ensures
        r@ == editor_after(key, state.parent@, state.draft@),
{
    let DescriptionEditorState { parent, draft } = state;
    let mut draft = draft;
    match key {
        Key::Esc => ModalState::TaskForm(parent),
        Key::F(n) => {
            if n == 2 {
                let mut form = parent;
                form.description = draft;
                form.field = TaskFormField::Description;
                form.error = None;
                ModalState::TaskForm(form)
            } else {
                ModalState::DescriptionEditor(DescriptionEditorState { parent, draft })
            }
        },
        Key::Enter => {
            push_char(&mut draft, '\n');
            ModalState::DescriptionEditor(DescriptionEditorState { parent, draft })
        },
        Key::Backspace => {
            let _ = pop_char(&mut draft);
            ModalState::DescriptionEditor(DescriptionEditorState { parent, draft })
        },
        Key::Tab => {
            let draft = concat(draft, "    ");
            ModalState::DescriptionEditor(DescriptionEditorState { parent, draft })
        },
        Key::Char(c) => {
            if !char_is_control(c) {
                push_char(&mut draft, c);
            }
            ModalState::DescriptionEditor(DescriptionEditorState { parent, draft })
        },
        _ => ModalState::DescriptionEditor(DescriptionEditorState { parent, draft }),
    }
}

fn task_form_key(key: Key, form: TaskFormState) -> (r: ModalState)
    requires
        !(key == Key::Enter && form.field != TaskFormField::Description),
    ensures
        r@ == form_after(key, form@),
{
    let mut form = form;
    match key {
        Key::Esc => ModalState::Closed,
        Key::Tab => {
            form.field = next_field(form.field);
            form.error = None;
            ModalState::TaskForm(form)
        },
        Key::BackTab => {
            form.field = prev_field(form.field);
            form.error = None;
            ModalState::TaskForm(form)
        },
        Key::Enter => {
            let draft = form.description.clone();
            ModalState::DescriptionEditor(DescriptionEditorState { parent: form, draft })
        },
        Key::Backspace => {
            match form.field {
                TaskFormField::Title => {
                    let _ = pop_char(&mut form.title);
                },
                TaskFormField::Description => {
                    let _ = pop_char(&mut form.description);
                },
                _ => {},
            }
            ModalState::TaskForm(form)
        },
        Key::Left | Key::Right | Key::Up | Key::Down => {
            if form.field == TaskFormField::Priority {
                match key {
                    Key::Left => {
                        form.priority = prev_priority(form.priority);
                    },
                    Key::Right => {
                        form.priority = next_priority(form.priority);
                    },
                    _ => {},
                }
            } else if form.field == TaskFormField::Date {
                let delta_days: i64 = match key {
                    Key::Left => -1,
                    Key::Right => 1,
                    Key::Up => -7,
                    _ => 7,
                };
                let next = shift_days(form.date, delta_days);
                proof {
                    lemma_shifted_is(next, days_shifted(form.date@, delta_days as int));
                }
                form.date = next;
            }
            ModalState::TaskForm(form)
        },
        Key::Char(c) => {
            if form.field == TaskFormField::Date && (c == '{' || c == 'H') {
                let next = shift_months_or_keep(form.date, -1);
                proof {
                    lemma_shifted_is(next, months_shifted(form.date@, -1));
                }
                form.date = next;
            } else if form.field == TaskFormField::Date && (c == '}' || c == 'L') {
                let next = shift_months_or_keep(form.date, 1);
                proof {
                    lemma_shifted_is(next, months_shifted(form.date@, 1));
                }
                form.date = next;
            } else if form.field == TaskFormField::Title {
                if !char_is_control(c) {
                    push_char(&mut form.title, c);
                }
            } else if form.field == TaskFormField::Description {
                if !char_is_control(c) {
                    push_char(&mut form.description, c);
                }
            }
            ModalState::TaskForm(form)
        },
        _ => ModalState::TaskForm(form),
    }
}


// ----- submitting a dialog -----

/// A result with its message taken as a character sequence.
pub open spec fn outcome(r: Result<(), String>) -> Result<(), Seq<char>> {
    match r {
        Ok(()) => Ok(()),
        Err(e) => Err(e@),
    }
}

/// The dialog after a save was attempted: closed when saving worked, as it
/// was when it failed.
pub open spec fn settled(saved: bool, kept: ModalView, after: ModalView) -> bool {
    if saved {
        after == ModalView::Closed
    } else {
        after == kept
    }
}

/// The store after a change was handed to it: it holds the changed tasks
/// when saving worked, and what it held before when saving failed.
pub open spec fn stored(saved: bool, s: Seq<TodoView>, s2: Seq<TodoView>, tasks: Seq<TodoView>) -> bool {
    if saved {
        s2 == tasks
    } else {
        s2 == s
    }
}

/// Ends a submission with what the store answered: the dialog closes when
/// the tasks were saved; when saving failed it stays as `kept` and the
/// failure is returned.
pub fn settle_after_save(saved: Result<(), String>, kept: ModalState, modal: &mut ModalState) -> (r:
    Result<(), String>)
    ensures
        outcome(r) == outcome(saved),
        settled(saved is Ok, kept@, final(modal)@),
{
    match saved {
        Ok(()) => {
            *modal = ModalState::Closed;
            Ok(())
        },
        Err(e) => {
            *modal = kept;
            Err(e)
        },
    }
}

/// What submitting the move dialog does: a task that cannot be found is an
/// error that changes nothing, the store included; otherwise the task moves,
/// the move is recorded for undo, the tasks are handed to the store (`s`
/// before, `s2` after), and the result and the dialog follow the store's
/// answer.
pub open spec fn move_submitted(
    id: TodoId,
    day: Date,
    before: ModalView,
    a: AppStateView,
    u: UndoSlotView,
    s: Seq<TodoView>,
    a2: AppStateView,
    u2: UndoSlotView,
    m2: ModalView,
    s2: Seq<TodoView>,
    r: Result<(), Seq<char>>,
) -> bool {
    match index_of(a.todos, id) {
        None => r == Err::<(), Seq<char>>(not_found_text()) && m2 == before && a2 == a && u2 == u
            && s2 == s,
        Some(i) => {
            &&& a2 == AppStateView { todos: moved(a.todos, id, day), ..a }
            &&& u2 == UndoSlotView {
                pending: recorded(
                    u.pending,
                    UndoAction::Move { id, previous_day: a.todos[i].assigned_day },
                    u.capacity,
                ),
                capacity: u.capacity,
            }
            &&& settled(r is Ok, before, m2)
            &&& stored(r is Ok, s, s2, a2.todos)
        },
    }
}

/// The quick-add reading of a submitted form: its trimmed title, read with
/// the form's priority and day as defaults; an empty title is refused.
pub open spec fn form_submission(f: TaskFormView) -> Result<QuickAddView, Seq<char>> {
    let title = trim(f.title);
    if title.len() == 0 {
        Err("title cannot be empty"@)
    } else {
        quick_add_spec(title, f.priority, f.date)
    }
}

/// The note a submitted form hands on: none when blank.
pub open spec fn form_note(f: TaskFormView) -> Option<Seq<char>> {
    if trim(f.description).len() == 0 {
        None
    } else {
        Some(f.description)
    }
}

/// What submitting the task form does: a refused text stays in the form as
/// its error and the store is left alone; an edit of a task that cannot be
/// found is an error that changes nothing; otherwise the task is edited or
/// added, the undo history is emptied, the tasks are handed to the store
/// (`s` before, `s2` after), and the result and the dialog follow the
/// store's answer.
pub open spec fn form_submitted(
    f: TaskFormView,
    before: ModalView,
    a: AppStateView,
    u: UndoSlotView,
    s: Seq<TodoView>,
    a2: AppStateView,
    u2: UndoSlotView,
    m2: ModalView,
    s2: Seq<TodoView>,
    r: Result<(), Seq<char>>,
) -> bool {
    let cleared = UndoSlotView { pending: Seq::<UndoAction>::empty(), capacity: u.capacity };
    match form_submission(f) {
        Err(e) => {
            &&& r is Ok
            &&& m2 == ModalView::TaskForm(TaskFormView { error: Some(e), ..f })
            &&& a2 == a
            &&& u2 == u
            &&& s2 == s
        },
        Ok(q) => match f.todo_id {
            Some(id) => match index_of(a.todos, id) {
                None => r == Err::<(), Seq<char>>(not_found_text()) && m2 == before && a2 == a
                    && u2 == u && s2 == s,
                Some(i) => {
                    &&& a2 == AppStateView {
                        todos: a.todos.update(
                            i,
                            edited(
                                a.todos[i],
                                q.title,
                                q.priority,
                                date_of(q.assigned_day),
                                form_note(f),
                                time_of(q.due_time),
                            ),
                        ),
                        ..a
                    }
                    &&& u2 == cleared
                    &&& settled(r is Ok, before, m2)
                    &&& stored(r is Ok, s, s2, a2.todos)
                },
            },
            None => {
                &&& a2 == AppStateView {
                    todos: a.todos.push(
                        fresh_todo(
                            a2.todos.last().id,
                            q.title,
                            q.priority,
                            date_of(q.assigned_day),
                            a2.todos.last().created_at,
                            form_note(f),
                            time_of(q.due_time),
                        ),
                    ),
                    ..a
                }
                &&& u2 == cleared
                &&& settled(r is Ok, before, m2)
                &&& stored(r is Ok, s, s2, a2.todos)
            },
        },
    }
}

fn submit_move<S: TodoStore>(
    state: MoveDateState,
    modal: &mut ModalState,
    app: &mut AppState,
    store: &mut S,
    undo_slot: &mut UndoSlot,
) -> (r: Result<(), String>)
    ensures
        move_submitted(
            state.todo_id,
            state.date,
            ModalState::MoveDate(state)@,
            old(app)@,
            old(undo_slot)@,
            old(store).contents(),
            final(app)@,
            final(undo_slot)@,
            final(modal)@,
            final(store).contents(),
            outcome(r),
        ),
{
    let id = state.todo_id;
    let date = state.date;
    match app.move_todo_with_undo(id, date) {
        Err(e) => {
            *modal = ModalState::MoveDate(state);
            Err(e)
        },
        Ok(undo) => {
            proof {
                assert(undo == UndoAction::Move {
                    id,
                    previous_day: old(app)@.todos[index_of(old(app)@.todos, id)->0].assigned_day,
                });
            }
            undo_slot.record(undo);
            let saved = store.save(app.todos());
            settle_after_save(saved, ModalState::MoveDate(state), modal)
        },
    }
}

fn submit_form<S: TodoStore>(
    form: TaskFormState,
    modal: &mut ModalState,
    app: &mut AppState,
    store: &mut S,
    undo_slot: &mut UndoSlot,
) -> (r: Result<(), String>)
    ensures
        form_submitted(
            form@,
            ModalState::TaskForm(form)@,
            old(app)@,
            old(undo_slot)@,
            old(store).contents(),
            final(app)@,
            final(undo_slot)@,
            final(modal)@,
            final(store).contents(),
            outcome(r),
        ),
{
    let mut form = form;
    let ghost f = form@;
    let title_chars = trimmed(to_chars(form.title.as_str()).as_slice());
    if title_chars.len() == 0 {
        form.error = Some(owned("title cannot be empty"));
        *modal = ModalState::TaskForm(form);
        return Ok(());
    }
    let title = string_of(title_chars.as_slice());
    let parsed = match parse_quick_add(title.as_str(), form.priority, form.date) {
        Ok(parsed) => parsed,
        Err(error) => {
            form.error = Some(error);
            *modal = ModalState::TaskForm(form);
            return Ok(());
        },
    };
    let description = if is_blank(to_chars(form.description.as_str()).as_slice()) {
        None
    } else {
        Some(form.description.clone())
    };
    proof {
        Date::lemma_date_of(parsed.assigned_day);
        Time::lemma_time_of(parsed.due_time);
    }
    match form.todo_id {
        Some(id) => {
            let edit = app.update_todo_with_description(
                id,
                parsed.title,
                parsed.priority,
                parsed.assigned_day,
                description,
                parsed.due_time,
            );
            if let Err(e) = edit {
                *modal = ModalState::TaskForm(form);
                return Err(e);
            }
        },
        None => {
            let _ = app.add_todo_with_description(
                parsed.title.as_str(),
                parsed.priority,
                parsed.assigned_day,
                description,
                parsed.due_time,
            );
        },
    }
    undo_slot.clear();
    let saved = store.save(app.todos());
    settle_after_save(saved, ModalState::TaskForm(form), modal)
}

/// What a key does to the open dialog `m` over the tasks `a`, the undo
/// history `u` and the store's tasks `s`, giving `m2`, `a2`, `u2`, `s2` and
/// the result `r`: keys that do not submit change the dialog alone; a
/// submission goes as `move_submitted` and `form_submitted` say.
pub open spec fn modal_key_done(
    key: Key,
    m: ModalView,
    a: AppStateView,
    u: UndoSlotView,
    s: Seq<TodoView>,
    m2: ModalView,
    a2: AppStateView,
    u2: UndoSlotView,
    s2: Seq<TodoView>,
    r: Result<(), Seq<char>>,
) -> bool {
    if !saves(key, m) {
        &&& r is Ok
        &&& m2 == modal_after(key, m)
        &&& a2 == a
        &&& u2 == u
        &&& s2 == s
    } else {
        match m {
            ModalView::MoveDate { todo_id, date } => move_submitted(
                todo_id,
                date,
                m,
                a,
                u,
                s,
                a2,
                u2,
                m2,
                s2,
                r,
            ),
            ModalView::TaskForm(f) => form_submitted(f, m, a, u, s, a2, u2, m2, s2, r),
            _ => false,
        }
    }
}

/// Applies a key to the open dialog, saving the tasks to `store` once a
/// submission changed them.
pub fn handle_modal_event<S: TodoStore>(
    key: Key,
    modal: &mut ModalState,
    app: &mut AppState,
    store: &mut S,
    undo_slot: &mut UndoSlot,
) -> (r: Result<(), String>)
    ensures
        modal_key_done(
            key,
            old(modal)@,
            old(app)@,
            old(undo_slot)@,
            old(store).contents(),
            final(modal)@,
            final(app)@,
            final(undo_slot)@,
            final(store).contents(),
            outcome(r),
        ),
{
    let mut current = ModalState::Closed;
    std::mem::swap(&mut current, modal);
    match current {
        ModalState::Closed => Ok(()),
        ModalState::MoveDate(state) => {
            if key == Key::Enter {
                submit_move(state, modal, app, store, undo_slot)
            } else {
                *modal = move_date_key(key, state);
                Ok(())
            }
        },
        ModalState::DescriptionEditor(state) => {
            *modal = description_editor_key(key, state);
            Ok(())
        },
        ModalState::TaskForm(form) => {
            if key == Key::Enter && form.field != TaskFormField::Description {
                submit_form(form, modal, app, store, undo_slot)
            } else {
                *modal = task_form_key(key, form);
                Ok(())
            }
        },
    }
}


/// In the task form with the date field focused, `Right` picks the day
/// after the form's date and `Left` the day before, `Down` the day a week
/// on and `Up` the day a week back, as chrono's day arithmetic counts them
/// (the date stays when that day is out of range); nothing else of the form
/// changes, and the date picker of the move dialog picks the same days.
pub proof fn law_form_date_keys(f: TaskFormView, key: Key, id: TodoId)
    requires
        f.field == TaskFormField::Date,
    ensures
        key == Key::Right ==> modal_after(key, ModalView::TaskForm(f)) == ModalView::TaskForm(
            TaskFormView {
                date: date_of(
                    match days_later(f.date@, 1) {
                        Some(x) => x,
                        None => f.date@,
                    },
                ),
                ..f
            },
        ),
        key == Key::Left ==> modal_after(key, ModalView::TaskForm(f)) == ModalView::TaskForm(
            TaskFormView {
                date: date_of(
                    match days_earlier(f.date@, 1) {
                        Some(x) => x,
                        None => f.date@,
                    },
                ),
                ..f
            },
        ),
        key == Key::Down ==> modal_after(key, ModalView::TaskForm(f)) == ModalView::TaskForm(
            TaskFormView {
                date: date_of(
                    match days_later(f.date@, 7) {
                        Some(x) => x,
                        None => f.date@,
                    },
                ),
                ..f
            },
        ),
        key == Key::Up ==> modal_after(key, ModalView::TaskForm(f)) == ModalView::TaskForm(
            TaskFormView {
                date: date_of(
                    match days_earlier(f.date@, 7) {
                        Some(x) => x,
                        None => f.date@,
                    },
                ),
                ..f
            },
        ),
        key == Key::Right || key == Key::Left || key == Key::Up || key == Key::Down ==> (
        modal_after(key, ModalView::TaskForm(f))->TaskForm_0.date == modal_after(
            key,
            ModalView::MoveDate { todo_id: id, date: f.date },
        )->date),
{
}

} // verus!
