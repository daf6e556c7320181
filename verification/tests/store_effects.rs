use dayroll::app::{AppState, Overlay, UndoSlot};
use dayroll::date::Date;
use dayroll::event_handler::handle_modal_event;
use dayroll::main_view::{clamp_selection, handle_key, visible_todos, MainAction};
use dayroll::model::{Priority, Todo};
use dayroll::storage::{Store, TodoStore};
use dayroll::theme::ThemeName;
use dayroll::ui_state::{
    DescriptionEditorState, Key, ModalState, MoveDateState, TaskFormField, TaskFormState, UiViewState,
};

fn day(year: i32, month: u32, d: u32) -> Date {
    Date::from_ymd_opt(year, month, d).expect("valid date")
}

fn form(date: Date, title: &str, field: TaskFormField) -> TaskFormState {
    TaskFormState {
        todo_id: None,
        title: title.to_string(),
        priority: Priority::Medium,
        date,
        description: "# note".to_string(),
        field,
        error: None,
    }
}

fn titles(store: &impl TodoStore) -> Vec<String> {
    store.load().expect("load").into_iter().map(|t| t.title).collect()
}

#[test]
fn keys_that_do_not_submit_leave_the_store_alone() -> Result<(), String> {
    let today = day(2026, 4, 18);
    let mut app = AppState::new_for_date(today);
    let mut undo = UndoSlot::new();
    let mut store = Store::new_in_memory();
    let mut modal = ModalState::TaskForm(form(today, "t", TaskFormField::Description));
    handle_modal_event(Key::Enter, &mut modal, &mut app, &mut store, &mut undo)?;
    assert!(matches!(modal, ModalState::DescriptionEditor(_)));
    handle_modal_event(Key::Esc, &mut modal, &mut app, &mut store, &mut undo)?;
    assert!(matches!(modal, ModalState::TaskForm(_)));
    assert!(titles(&store).is_empty());
    assert!(store.take_unwritten().is_none());
    Ok(())
}

#[test]
fn a_submitted_form_is_saved_and_closes() -> Result<(), String> {
    let today = day(2026, 4, 18);
    let mut app = AppState::new_for_date(today);
    let mut undo = UndoSlot::new();
    let mut store = Store::new_in_memory();
    let mut modal = ModalState::TaskForm(form(today, "pay rent", TaskFormField::Title));
    let result = handle_modal_event(Key::Enter, &mut modal, &mut app, &mut store, &mut undo);
    assert_eq!(result, Ok(()));
    assert!(matches!(modal, ModalState::Closed));
    assert_eq!(titles(&store), vec!["pay rent".to_string()]);
    let saved = store.load()?;
    assert_eq!(saved[0].description.as_deref(), Some("# note"));
    Ok(())
}

#[test]
fn a_save_leaves_the_tasks_to_write_once() -> Result<(), String> {
    let today = day(2026, 4, 18);
    let kept = Todo::new("kept", Priority::Low, today);
    let mut store = Store::holding(&[kept.clone()]);
    assert!(store.take_unwritten().is_none());
    store.save(&[kept.clone(), Todo::new("more", Priority::High, today)])?;
    let out = store.take_unwritten().expect("tasks to write");
    assert_eq!(out.iter().map(|t| t.title.as_str()).collect::<Vec<_>>(), vec!["kept", "more"]);
    assert!(store.take_unwritten().is_none());
    assert_eq!(titles(&store), vec!["kept".to_string(), "more".to_string()]);
    Ok(())
}

#[test]
fn a_move_that_is_saved_closes_and_the_store_holds_it() -> Result<(), String> {
    let today = day(2026, 4, 18);
    let kept = Todo::new("kept", Priority::Low, today);
    let id = kept.id;
    let mut app = AppState::with_todos(today, vec![kept.clone()]);
    let mut undo = UndoSlot::new();
    let mut store = Store::holding(&[kept]);
    let mut modal = ModalState::MoveDate(MoveDateState { todo_id: id, date: day(2026, 4, 20) });
    handle_modal_event(Key::Enter, &mut modal, &mut app, &mut store, &mut undo)?;
    assert!(matches!(modal, ModalState::Closed));
    assert_eq!(store.load()?[0].assigned_day, day(2026, 4, 20));
    let written = store.take_unwritten().expect("the move is left to write");
    assert_eq!(written[0].assigned_day, day(2026, 4, 20));
    Ok(())
}

#[test]
fn delete_then_undo_leaves_the_store_with_the_list_as_before() -> Result<(), String> {
    let today = day(2026, 4, 18);
    let mut app = AppState::new_for_date(today);
    app.add_todo("alpha", Priority::Low, today);
    app.add_todo("beta", Priority::Low, today);
    let mut store = Store::new_in_memory();
    store.save(app.todos())?;
    let mut view = UiViewState {
        selected_index: 0,
        expanded_task: None,
        theme_name: ThemeName::Dayroll,
        overlay: Overlay::Hidden,
    };
    let mut modal = ModalState::Closed;
    let mut undo = UndoSlot::new();
    for (key, expected) in [(Key::Char('d'), vec!["alpha"]), (Key::Char('u'), vec!["alpha", "beta"])] {
        let rows = visible_todos(&app);
        view.selected_index = clamp_selection(view.selected_index, rows.len());
        let action = handle_key(key, today, &rows, &mut app, &mut view, &mut modal, &mut undo, &mut store)?;
        assert_eq!(action, MainAction::Continue);
        assert_eq!(titles(&store), expected);
    }
    Ok(())
}

#[test]
fn navigation_keys_do_not_write() -> Result<(), String> {
    let today = day(2026, 4, 18);
    let mut app = AppState::new_for_date(today);
    app.add_todo("alpha", Priority::Low, today);
    let mut store = Store::new_in_memory();
    let mut view = UiViewState {
        selected_index: 0,
        expanded_task: None,
        theme_name: ThemeName::Dayroll,
        overlay: Overlay::Hidden,
    };
    let mut modal = ModalState::Closed;
    let mut undo = UndoSlot::new();
    for key in [Key::Char('j'), Key::Char(']'), Key::Char('T'), Key::Char('/'), Key::Char('d'), Key::Esc] {
        let rows = visible_todos(&app);
        handle_key(key, today, &rows, &mut app, &mut view, &mut modal, &mut undo, &mut store)?;
    }
    assert!(titles(&store).is_empty());
    assert!(store.take_unwritten().is_none());
    assert_eq!(app.todos().len(), 1);
    let _ = DescriptionEditorState { parent: form(today, "x", TaskFormField::Title), draft: String::new() };
    Ok(())
}
