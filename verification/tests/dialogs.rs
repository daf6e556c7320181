use dayroll::app::{AppState, UndoAction, UndoSlot};
use dayroll::date::Date;
use dayroll::event_handler::{
    handle_modal_event, next_field, next_priority, prev_field, prev_priority, shift_days,
};
use dayroll::model::{Priority, TodoId};
use dayroll::storage::{Store, TodoStore};
use dayroll::ui_state::{
    DescriptionEditorState, Key, ModalState, MoveDateState, TaskFormField, TaskFormState,
};

fn day(year: i32, month: u32, d: u32) -> Date {
    Date::from_ymd_opt(year, month, d).expect("valid date")
}

fn form(date: Date, title: &str, field: TaskFormField) -> TaskFormState {
    TaskFormState {
        todo_id: None,
        title: title.to_string(),
        priority: Priority::Medium,
        date,
        description: String::new(),
        field,
        error: None,
    }
}

fn press(key: Key, modal: &mut ModalState, app: &mut AppState, undo: &mut UndoSlot) -> Result<(), String> {
    let mut store = Store::new_in_memory();
    handle_modal_event(key, modal, app, &mut store, undo)
}

fn form_of(modal: &ModalState) -> TaskFormState {
    match modal {
        ModalState::TaskForm(f) => f.clone(),
        other => panic!("expected task form, got {other:?}"),
    }
}

fn move_of(modal: &ModalState) -> MoveDateState {
    match modal {
        ModalState::MoveDate(m) => m.clone(),
        other => panic!("expected move dialog, got {other:?}"),
    }
}

#[test]
fn tab_order_cycles_and_back_tab_reverses_it() {
    let mut field = TaskFormField::Title;
    for _ in 0..4 {
        field = next_field(field);
    }
    assert_eq!(field, TaskFormField::Title);
    assert_eq!(next_field(TaskFormField::Title), TaskFormField::Priority);
    assert_eq!(prev_field(TaskFormField::Title), TaskFormField::Description);
    for f in [TaskFormField::Title, TaskFormField::Priority, TaskFormField::Date, TaskFormField::Description] {
        assert_eq!(prev_field(next_field(f)), f);
    }
}

#[test]
fn priority_steps_stop_at_both_ends() {
    assert_eq!(next_priority(Priority::High), Priority::Medium);
    assert_eq!(next_priority(Priority::Medium), Priority::Low);
    assert_eq!(next_priority(Priority::Low), Priority::Low);
    assert_eq!(prev_priority(Priority::Low), Priority::Medium);
    assert_eq!(prev_priority(Priority::High), Priority::High);
    assert_eq!(prev_priority(next_priority(Priority::Medium)), Priority::Medium);
}

#[test]
fn shift_days_crosses_month_and_year_ends() {
    assert_eq!(shift_days(day(2026, 1, 31), 1), day(2026, 2, 1));
    assert_eq!(shift_days(day(2026, 3, 1), -1), day(2026, 2, 28));
    assert_eq!(shift_days(day(2025, 12, 28), 7), day(2026, 1, 4));
    assert_eq!(shift_days(day(2026, 4, 18), -7), day(2026, 4, 11));
    assert_eq!(shift_days(day(2026, 4, 18), 0), day(2026, 4, 18));
}

#[test]
fn move_dialog_keys_pick_days_weeks_and_months() -> Result<(), String> {
    let mut app = AppState::new_for_date(day(2026, 1, 31));
    let mut undo = UndoSlot::new();
    let mut modal = ModalState::MoveDate(MoveDateState { todo_id: TodoId::nil(), date: day(2026, 1, 31) });
    press(Key::Right, &mut modal, &mut app, &mut undo)?;
    assert_eq!(move_of(&modal).date, day(2026, 2, 1));
    press(Key::Up, &mut modal, &mut app, &mut undo)?;
    assert_eq!(move_of(&modal).date, day(2026, 1, 25));
    press(Key::Down, &mut modal, &mut app, &mut undo)?;
    press(Key::Left, &mut modal, &mut app, &mut undo)?;
    assert_eq!(move_of(&modal).date, day(2026, 1, 31));
    press(Key::Char('}'), &mut modal, &mut app, &mut undo)?;
    assert_eq!(move_of(&modal).date, day(2026, 2, 28));
    press(Key::Char('H'), &mut modal, &mut app, &mut undo)?;
    assert_eq!(move_of(&modal).date, day(2026, 1, 28));
    press(Key::Char('x'), &mut modal, &mut app, &mut undo)?;
    assert_eq!(move_of(&modal).date, day(2026, 1, 28));
    press(Key::Esc, &mut modal, &mut app, &mut undo)?;
    assert!(matches!(modal, ModalState::Closed));
    Ok(())
}

#[test]
fn move_dialog_enter_moves_records_undo_and_closes() -> Result<(), String> {
    let today = day(2026, 4, 18);
    let mut app = AppState::new_for_date(today);
    let id = app.add_todo("reschedule", Priority::Low, today);
    let mut undo = UndoSlot::new();
    let mut store = Store::new_in_memory();
    let mut modal = ModalState::MoveDate(MoveDateState { todo_id: id, date: day(2026, 4, 22) });

    handle_modal_event(Key::Enter, &mut modal, &mut app, &mut store, &mut undo)?;

    assert!(matches!(modal, ModalState::Closed));
    assert_eq!(app.todo(id).expect("task").assigned_day, day(2026, 4, 22));
    match undo.take() {
        Some(UndoAction::Move { id: moved, previous_day }) => {
            assert_eq!(moved, id);
            assert_eq!(previous_day, today);
        }
        other => panic!("expected a move record, got {other:?}"),
    }
    let saved = store.load()?;
    assert_eq!(saved.len(), 1);
    assert_eq!(saved[0].assigned_day, day(2026, 4, 22));
    Ok(())
}

#[test]
fn move_dialog_enter_on_missing_task_fails_and_stays_open() {
    let today = day(2026, 4, 18);
    let mut app = AppState::new_for_date(today);
    let mut undo = UndoSlot::new();
    let mut modal = ModalState::MoveDate(MoveDateState { todo_id: TodoId::nil(), date: today });
    let result = press(Key::Enter, &mut modal, &mut app, &mut undo);
    assert_eq!(result, Err("todo not found".to_string()));
    assert_eq!(move_of(&modal).date, today);
    assert!(undo.take().is_none());
}

#[test]
fn task_form_fields_take_their_keys() -> Result<(), String> {
    let today = day(2026, 4, 18);
    let mut app = AppState::new_for_date(today);
    let mut undo = UndoSlot::new();
    let mut start = form(today, "ab", TaskFormField::Title);
    start.error = Some("old".to_string());
    let mut modal = ModalState::TaskForm(start);

    press(Key::Backspace, &mut modal, &mut app, &mut undo)?;
    press(Key::Char('H'), &mut modal, &mut app, &mut undo)?;
    press(Key::Char('\u{7}'), &mut modal, &mut app, &mut undo)?;
    let f = form_of(&modal);
    assert_eq!(f.title, "aH");
    assert_eq!(f.error.as_deref(), Some("old"));

    press(Key::Tab, &mut modal, &mut app, &mut undo)?;
    let f = form_of(&modal);
    assert_eq!(f.field, TaskFormField::Priority);
    assert!(f.error.is_none());

    press(Key::Right, &mut modal, &mut app, &mut undo)?;
    assert_eq!(form_of(&modal).priority, Priority::Low);
    press(Key::Left, &mut modal, &mut app, &mut undo)?;
    press(Key::Left, &mut modal, &mut app, &mut undo)?;
    assert_eq!(form_of(&modal).priority, Priority::High);

    press(Key::Tab, &mut modal, &mut app, &mut undo)?;
    press(Key::Down, &mut modal, &mut app, &mut undo)?;
    assert_eq!(form_of(&modal).date, day(2026, 4, 25));
    press(Key::Char('H'), &mut modal, &mut app, &mut undo)?;
    assert_eq!(form_of(&modal).date, day(2026, 3, 25));
    assert_eq!(form_of(&modal).title, "aH");

    press(Key::BackTab, &mut modal, &mut app, &mut undo)?;
    press(Key::BackTab, &mut modal, &mut app, &mut undo)?;
    assert_eq!(form_of(&modal).field, TaskFormField::Title);
    press(Key::BackTab, &mut modal, &mut app, &mut undo)?;
    press(Key::Char('n'), &mut modal, &mut app, &mut undo)?;
    assert_eq!(form_of(&modal).description, "n");
    Ok(())
}

#[test]
fn blank_title_is_refused_in_the_form() -> Result<(), String> {
    let today = day(2026, 4, 18);
    let mut app = AppState::new_for_date(today);
    let mut undo = UndoSlot::new();
    let mut modal = ModalState::TaskForm(form(today, "   ", TaskFormField::Title));
    press(Key::Enter, &mut modal, &mut app, &mut undo)?;
    assert_eq!(form_of(&modal).error.as_deref(), Some("title cannot be empty"));
    assert!(app.todos().is_empty());

    let mut modal = ModalState::TaskForm(form(today, "!high @today", TaskFormField::Title));
    press(Key::Enter, &mut modal, &mut app, &mut undo)?;
    assert_eq!(form_of(&modal).error.as_deref(), Some("title cannot be empty"));
    Ok(())
}

#[test]
fn bad_time_token_message_names_the_token() -> Result<(), String> {
    let today = day(2026, 4, 18);
    let mut app = AppState::new_for_date(today);
    let mut undo = UndoSlot::new();
    let mut modal = ModalState::TaskForm(form(today, "call @25:99", TaskFormField::Title));
    press(Key::Enter, &mut modal, &mut app, &mut undo)?;
    assert_eq!(form_of(&modal).error.as_deref(), Some("invalid time token: @@25:99"));
    Ok(())
}

#[test]
fn submitting_an_edit_updates_the_task_and_clears_undo() -> Result<(), String> {
    let today = day(2026, 4, 18);
    let mut app = AppState::new_for_date(today);
    let id = app.add_todo("old", Priority::Low, today);
    let mut undo = UndoSlot::new();
    undo.record(app.move_todo_with_undo(id, today)?);
    let mut edit = form(today, "  new title @2026-05-01 !h @9:05 ", TaskFormField::Title);
    edit.todo_id = Some(id);
    edit.description = "  \n ".to_string();
    let mut modal = ModalState::TaskForm(edit);

    press(Key::Enter, &mut modal, &mut app, &mut undo)?;

    assert!(matches!(modal, ModalState::Closed));
    let task = app.todo(id).expect("task");
    assert_eq!(task.title, "new title");
    assert_eq!(task.priority, Priority::High);
    assert_eq!(task.assigned_day, day(2026, 5, 1));
    let due = task.due_time.expect("due time");
    assert_eq!((due.hour(), due.minute()), (9, 5));
    assert!(task.description.is_none());
    assert!(undo.take().is_none());
    Ok(())
}

#[test]
fn submitting_an_edit_of_a_missing_task_fails() {
    let today = day(2026, 4, 18);
    let mut app = AppState::new_for_date(today);
    let mut undo = UndoSlot::new();
    let mut edit = form(today, "x", TaskFormField::Title);
    edit.todo_id = Some(TodoId::nil());
    let mut modal = ModalState::TaskForm(edit);
    let result = press(Key::Enter, &mut modal, &mut app, &mut undo);
    assert_eq!(result, Err("todo not found".to_string()));
    assert_eq!(form_of(&modal).title, "x");
}

#[test]
fn notes_editor_edits_the_draft() -> Result<(), String> {
    let today = day(2026, 4, 18);
    let mut app = AppState::new_for_date(today);
    let mut undo = UndoSlot::new();
    let mut modal = ModalState::DescriptionEditor(DescriptionEditorState {
        parent: form(today, "t", TaskFormField::Description),
        draft: "ab".to_string(),
    });
    press(Key::Backspace, &mut modal, &mut app, &mut undo)?;
    press(Key::Tab, &mut modal, &mut app, &mut undo)?;
    press(Key::Char('\u{1b}'), &mut modal, &mut app, &mut undo)?;
    press(Key::F(3), &mut modal, &mut app, &mut undo)?;
    press(Key::Char('z'), &mut modal, &mut app, &mut undo)?;
    match &modal {
        ModalState::DescriptionEditor(e) => assert_eq!(e.draft, "a    z"),
        other => panic!("expected notes editor, got {other:?}"),
    }
    Ok(())
}

#[test]
fn closed_dialog_ignores_keys() -> Result<(), String> {
    let mut app = AppState::new_for_date(day(2026, 4, 18));
    let mut undo = UndoSlot::new();
    let mut modal = ModalState::Closed;
    press(Key::Enter, &mut modal, &mut app, &mut undo)?;
    assert!(matches!(modal, ModalState::Closed));
    assert!(app.todos().is_empty());
    Ok(())
}
