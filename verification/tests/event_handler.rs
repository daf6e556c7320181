use dayroll::app::{AppState, UndoSlot};
use dayroll::date::Date;
use dayroll::event_handler::{handle_modal_event, handle_search_key};
use dayroll::model::Priority;
use dayroll::storage::Store;
use dayroll::ui_state::{DescriptionEditorState, Key, ModalState, TaskFormField, TaskFormState};

fn date(year: i32, month: u32, day: u32) -> Result<Date, String> {
    Date::from_ymd_opt(year, month, day)
        .ok_or_else(|| format!("invalid date: {year:04}-{month:02}-{day:02}"))
}

fn task_form(day: Date) -> TaskFormState {
    TaskFormState {
        todo_id: None,
        title: "draft title".to_string(),
        priority: Priority::Medium,
        date: day,
        description: String::new(),
        field: TaskFormField::Title,
        error: None,
    }
}

#[test]
fn search_mode_consumes_command_letters_as_text() -> Result<(), String> {
    let mut app = AppState::new_for_date(date(2026, 4, 18)?);
    app.activate_search();

    assert!(handle_search_key(Key::Char('d'), &mut app));
    assert_eq!(app.search_query(), "d");
    Ok(())
}

#[test]
fn slash_enters_search_mode() -> Result<(), String> {
    let mut app = AppState::new_for_date(date(2026, 4, 18)?);

    assert!(handle_search_key(Key::Char('/'), &mut app));
    assert!(app.search_active());
    assert!(app.search_query().is_empty());
    Ok(())
}

#[test]
fn invalid_quick_add_token_stays_in_form_and_sets_error() -> Result<(), String> {
    let day = date(2026, 4, 18)?;
    let mut store = Store::new_in_memory();
    let mut undo_slot = UndoSlot::new();
    let mut app = AppState::new_for_date(day);
    let mut form = task_form(day);
    form.title = "pay bill @2026-99-99".to_string();
    let mut modal = ModalState::TaskForm(form);

    handle_modal_event(Key::Enter, &mut modal, &mut app, &mut store, &mut undo_slot)?;

    match modal {
        ModalState::TaskForm(form) => {
            assert_eq!(form.title, "pay bill @2026-99-99");
            assert!(form.error.is_some());
        }
        other => panic!("expected task form, got {other:?}"),
    }
    assert!(app.todos().is_empty());
    Ok(())
}

#[test]
fn enter_on_description_field_opens_description_editor() -> Result<(), String> {
    let day = date(2026, 4, 18)?;
    let mut store = Store::new_in_memory();
    let mut undo_slot = UndoSlot::new();
    let mut app = AppState::new_for_date(day);
    let mut form = task_form(day);
    form.description = "# Notes\n- item".to_string();
    form.field = TaskFormField::Description;
    let mut modal = ModalState::TaskForm(form.clone());

    handle_modal_event(Key::Enter, &mut modal, &mut app, &mut store, &mut undo_slot)?;

    match modal {
        ModalState::DescriptionEditor(DescriptionEditorState { parent, draft }) => {
            assert_eq!(parent.description, form.description);
            assert_eq!(draft, form.description);
        }
        other => panic!("expected description editor, got {other:?}"),
    }
    Ok(())
}

#[test]
fn description_editor_save_updates_parent_form() -> Result<(), String> {
    let day = date(2026, 4, 18)?;
    let mut store = Store::new_in_memory();
    let mut undo_slot = UndoSlot::new();
    let mut app = AppState::new_for_date(day);
    let parent = task_form(day);
    let mut modal = ModalState::DescriptionEditor(DescriptionEditorState {
        draft: "# Heading".to_string(),
        parent,
    });

    handle_modal_event(Key::Enter, &mut modal, &mut app, &mut store, &mut undo_slot)?;
    handle_modal_event(
        Key::Char('-'),
        &mut modal,
        &mut app,
        &mut store,
        &mut undo_slot,
    )?;
    handle_modal_event(Key::F(2), &mut modal, &mut app, &mut store, &mut undo_slot)?;

    match modal {
        ModalState::TaskForm(form) => {
            assert_eq!(form.field, TaskFormField::Description);
            assert_eq!(form.description, "# Heading\n-");
            assert!(form.error.is_none());
        }
        other => panic!("expected task form, got {other:?}"),
    }
    Ok(())
}

#[test]
fn description_editor_escape_restores_parent_form_without_saving() -> Result<(), String> {
    let day = date(2026, 4, 18)?;
    let mut store = Store::new_in_memory();
    let mut undo_slot = UndoSlot::new();
    let mut app = AppState::new_for_date(day);
    let mut parent = task_form(day);
    parent.description = "kept".to_string();
    parent.field = TaskFormField::Description;
    let mut modal = ModalState::DescriptionEditor(DescriptionEditorState {
        draft: "changed".to_string(),
        parent,
    });

    handle_modal_event(Key::Esc, &mut modal, &mut app, &mut store, &mut undo_slot)?;

    match modal {
        ModalState::TaskForm(form) => {
            assert_eq!(form.field, TaskFormField::Description);
            assert_eq!(form.description, "kept");
        }
        other => panic!("expected task form, got {other:?}"),
    }
    Ok(())
}

#[test]
fn enter_on_title_field_saves_task_instead_of_opening_notes() -> Result<(), String> {
    let day = date(2026, 4, 18)?;
    let mut store = Store::new_in_memory();
    let mut undo_slot = UndoSlot::new();
    let mut app = AppState::new_for_date(day);
    let mut form = task_form(day);
    form.title = "pay rent".to_string();
    form.description = "# note".to_string();
    form.field = TaskFormField::Title;
    let mut modal = ModalState::TaskForm(form);

    handle_modal_event(Key::Enter, &mut modal, &mut app, &mut store, &mut undo_slot)?;

    assert!(matches!(modal, ModalState::Closed));
    assert_eq!(app.todos().len(), 1);
    let todo = &app.todos()[0];
    assert_eq!(todo.title, "pay rent");
    assert_eq!(todo.description.as_deref(), Some("# note"));
    Ok(())
}
