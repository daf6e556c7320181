use dayroll::app::{AppState, Overlay, UndoSlot};
use dayroll::date::{Date, Time};
use dayroll::main_view::{
    clamp_selection, format_task_label, handle_key, visible_todos, MainAction,
};
use dayroll::model::{Priority, Status};
use dayroll::storage::{Store, TodoStore};
use dayroll::theme::ThemeName;
use dayroll::ui_state::{Key, ModalState, TaskFormField, UiViewState};

fn day(year: i32, month: u32, d: u32) -> Date {
    Date::from_ymd_opt(year, month, d).expect("valid date")
}

struct Screen {
    app: AppState,
    view: UiViewState,
    modal: ModalState,
    undo: UndoSlot,
    store: Store,
    today: Date,
}

impl Screen {
    fn new(today: Date) -> Screen {
        Screen {
            app: AppState::new_for_date(today),
            view: UiViewState {
                selected_index: 0,
                expanded_task: None,
                theme_name: ThemeName::Dayroll,
                overlay: Overlay::Hidden,
            },
            modal: ModalState::Closed,
            undo: UndoSlot::new(),
            store: Store::new_in_memory(),
            today,
        }
    }

    fn press(&mut self, key: Key) -> Result<MainAction, String> {
        let rows = visible_todos(&self.app);
        self.view.selected_index = clamp_selection(self.view.selected_index, rows.len());
        handle_key(
            key,
            self.today,
            &rows,
            &mut self.app,
            &mut self.view,
            &mut self.modal,
            &mut self.undo,
            &mut self.store,
        )
    }
}

#[test]
fn task_labels_show_day_and_due_time() {
    assert_eq!(format_task_label("pay rent", day(2026, 4, 18), None), "pay rent (2026-04-18)");
    let due = Time::from_hm_opt(9, 5).expect("valid time");
    assert_eq!(format_task_label("call", day(2026, 4, 18), Some(due)), "call (2026-04-18 09:05)");
}

#[test]
fn selection_is_clamped_to_the_rows() {
    assert_eq!(clamp_selection(5, 0), 0);
    assert_eq!(clamp_selection(5, 3), 2);
    assert_eq!(clamp_selection(1, 3), 1);
}

#[test]
fn quit_asks_for_confirmation_then_quits() -> Result<(), String> {
    let mut s = Screen::new(day(2026, 4, 18));
    assert_eq!(s.press(Key::Char('q'))?, MainAction::Continue);
    assert_eq!(s.view.overlay, Overlay::QuitConfirm);
    assert_eq!(s.press(Key::Char('n'))?, MainAction::Continue);
    assert_eq!(s.view.overlay, Overlay::Hidden);
    s.press(Key::Esc)?;
    assert_eq!(s.view.overlay, Overlay::QuitConfirm);
    assert_eq!(s.press(Key::Char('y'))?, MainAction::Quit);
    Ok(())
}

#[test]
fn help_overlay_takes_keys_until_closed() -> Result<(), String> {
    let mut s = Screen::new(day(2026, 4, 18));
    s.press(Key::Char('?'))?;
    assert_eq!(s.view.overlay, Overlay::Help);
    s.press(Key::Char(']'))?;
    assert_eq!(s.app.selected_day(), day(2026, 4, 18));
    s.press(Key::Char('q'))?;
    assert_eq!(s.view.overlay, Overlay::Hidden);
    s.press(Key::Char('?'))?;
    s.press(Key::Esc)?;
    assert_eq!(s.view.overlay, Overlay::Hidden);
    Ok(())
}

#[test]
fn day_keys_move_the_selected_day_and_reset_the_row() -> Result<(), String> {
    let mut s = Screen::new(day(2026, 1, 31));
    s.view.selected_index = 3;
    s.press(Key::Char(']'))?;
    assert_eq!(s.app.selected_day(), day(2026, 2, 1));
    assert_eq!(s.view.selected_index, 0);
    s.press(Key::Left)?;
    s.press(Key::Char('L'))?;
    assert_eq!(s.app.selected_day(), day(2026, 2, 28));
    s.press(Key::Char('{'))?;
    assert_eq!(s.app.selected_day(), day(2026, 1, 28));
    s.press(Key::Char('t'))?;
    assert_eq!(s.app.selected_day(), day(2026, 1, 31));
    Ok(())
}

#[test]
fn theme_keys_cycle_and_ask_to_save() -> Result<(), String> {
    let mut s = Screen::new(day(2026, 4, 18));
    assert_eq!(s.press(Key::Char('T'))?, MainAction::ThemeChanged);
    assert_eq!(s.view.theme_name, ThemeName::Nord);
    assert_eq!(s.press(Key::Char('Y'))?, MainAction::ThemeChanged);
    assert_eq!(s.press(Key::Char('Y'))?, MainAction::ThemeChanged);
    assert_eq!(s.view.theme_name, ThemeName::TokyoNight);
    Ok(())
}

#[test]
fn add_key_opens_an_empty_form_on_the_selected_day() -> Result<(), String> {
    let mut s = Screen::new(day(2026, 4, 18));
    s.press(Key::Char(']'))?;
    s.press(Key::Char('a'))?;
    match &s.modal {
        ModalState::TaskForm(f) => {
            assert!(f.todo_id.is_none());
            assert_eq!(f.title, "");
            assert_eq!(f.priority, Priority::Medium);
            assert_eq!(f.date, day(2026, 4, 19));
            assert_eq!(f.field, TaskFormField::Title);
        }
        other => panic!("expected task form, got {other:?}"),
    }
    for c in "buy milk".chars() {
        s.press(Key::Char(c))?;
    }
    s.press(Key::Enter)?;
    assert!(matches!(s.modal, ModalState::Closed));
    assert_eq!(s.app.todos()[0].title, "buy milk");
    assert_eq!(s.store.load()?.len(), 1);
    Ok(())
}

#[test]
fn edit_and_move_keys_open_dialogs_for_the_selected_row() -> Result<(), String> {
    let today = day(2026, 4, 18);
    let mut s = Screen::new(today);
    let id = s.app.add_todo("draft", Priority::High, today);
    s.press(Key::Char('e'))?;
    match &s.modal {
        ModalState::TaskForm(f) => {
            assert_eq!(f.todo_id, Some(id));
            assert_eq!(f.title, "draft");
            assert_eq!(f.priority, Priority::High);
            assert_eq!(f.description, "");
        }
        other => panic!("expected task form, got {other:?}"),
    }
    s.press(Key::Esc)?;
    s.press(Key::Char('m'))?;
    match &s.modal {
        ModalState::MoveDate(m) => {
            assert_eq!(m.todo_id, id);
            assert_eq!(m.date, today);
        }
        other => panic!("expected move dialog, got {other:?}"),
    }
    Ok(())
}

#[test]
fn delete_and_undo_through_keys_restore_the_task() -> Result<(), String> {
    let today = day(2026, 4, 18);
    let mut s = Screen::new(today);
    s.app.add_todo("first", Priority::Low, today);
    s.app.add_todo("second", Priority::Low, today);
    s.press(Key::Char('j'))?;
    assert_eq!(s.view.selected_index, 1);
    s.press(Key::Char('j'))?;
    assert_eq!(s.view.selected_index, 1);
    s.press(Key::Char('d'))?;
    assert_eq!(s.app.todos().len(), 1);
    assert_eq!(s.store.load()?.len(), 1);
    s.press(Key::Char('u'))?;
    assert_eq!(s.app.todos().len(), 2);
    assert_eq!(s.store.load()?.len(), 2);
    assert_eq!(s.press(Key::Char('u'))?, MainAction::Continue);
    Ok(())
}

#[test]
fn enter_and_space_toggle_the_selected_task() -> Result<(), String> {
    let today = day(2026, 4, 18);
    let mut s = Screen::new(today);
    let id = s.app.add_todo("chore", Priority::Low, today);
    s.press(Key::Enter)?;
    assert_eq!(s.app.todo(id).expect("task").status, Status::Done);
    assert!(s.app.todo(id).expect("task").completed_at.is_some());
    s.press(Key::Char(' '))?;
    assert_eq!(s.app.todo(id).expect("task").status, Status::Pending);
    s.press(Key::Char('u'))?;
    assert_eq!(s.app.todo(id).expect("task").status, Status::Done);
    Ok(())
}

#[test]
fn search_takes_letters_until_escape() -> Result<(), String> {
    let today = day(2026, 4, 18);
    let mut s = Screen::new(today);
    s.app.add_todo("alpha", Priority::Low, today);
    s.app.add_todo("beta", Priority::Low, today);
    s.press(Key::Char('/'))?;
    s.press(Key::Char('d'))?;
    s.press(Key::Backspace)?;
    s.press(Key::Char('b'))?;
    assert_eq!(s.app.search_query(), "b");
    assert_eq!(s.app.todos().len(), 2);
    let rows = visible_todos(&s.app);
    assert_eq!(rows.len(), 1);
    assert_eq!(rows[0].label, "beta (2026-04-18)");
    s.press(Key::Esc)?;
    assert!(!s.app.search_active());
    assert_eq!(visible_todos(&s.app).len(), 2);
    Ok(())
}

#[test]
fn notes_unfold_only_for_tasks_with_notes() -> Result<(), String> {
    let today = day(2026, 4, 18);
    let mut s = Screen::new(today);
    let plain = s.app.add_todo("plain", Priority::Low, today);
    let noted = s.app.add_todo_with_description("noted", Priority::Low, today, Some("# n".to_string()), None);
    let rows = visible_todos(&s.app);
    assert_eq!(rows[0].id, noted);
    assert_eq!(rows[1].id, plain);
    s.press(Key::Char('l'))?;
    assert_eq!(s.view.expanded_task, Some(noted));
    s.press(Key::Down)?;
    s.press(Key::Char('h'))?;
    assert_eq!(s.view.expanded_task, Some(noted));
    s.press(Key::Char('l'))?;
    assert_eq!(s.view.expanded_task, None);
    s.press(Key::Up)?;
    s.press(Key::Char('l'))?;
    s.press(Key::Char('h'))?;
    assert_eq!(s.view.expanded_task, None);
    Ok(())
}

#[test]
fn board_lists_lanes_in_order() {
    let today = day(2026, 4, 18);
    let mut app = AppState::new_for_date(today);
    let done = app.add_todo("done one", Priority::Low, today);
    app.add_todo("open one", Priority::Low, today);
    app.toggle_done(done).expect("toggle");
    let rows = visible_todos(&app);
    assert_eq!(rows.len(), 2);
    assert_eq!(rows[0].label, "open one (2026-04-18)");
    assert_eq!(rows[1].status, Status::Done);
}
