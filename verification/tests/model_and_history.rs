use dayroll::app::{parse_quick_add, search_todos, AppState, DayBuckets, UndoSlot};
use dayroll::date::Date;
use dayroll::model::{Area, Priority, Status, Timestamp, Todo, TodoId};
use dayroll::theme::ThemeName;

fn day(year: i32, month: u32, d: u32) -> Date {
    Date::from_ymd_opt(year, month, d).expect("valid date")
}

#[test]
fn undo_history_keeps_only_the_latest_records() -> Result<(), String> {
    let today = day(2026, 4, 18);
    let mut state = AppState::new_for_date(today);
    let ids: Vec<TodoId> = ["a", "b", "c"]
        .iter()
        .map(|t| state.add_todo(t, Priority::Low, today))
        .collect();
    let mut slot = UndoSlot::with_capacity(2);
    for id in &ids {
        slot.record(state.toggle_done_with_undo(*id)?);
    }
    state.apply_undo(slot.take().expect("third"))?;
    state.apply_undo(slot.take().expect("second"))?;
    assert!(slot.take().is_none());
    assert_eq!(state.todo(ids[0]).expect("a").status, Status::Done);
    assert_eq!(state.todo(ids[1]).expect("b").status, Status::Pending);
    assert_eq!(state.todo(ids[2]).expect("c").status, Status::Pending);

    let mut smallest = UndoSlot::with_capacity(0);
    smallest.record(state.move_todo_with_undo(ids[0], today)?);
    smallest.record(state.move_todo_with_undo(ids[1], today)?);
    assert!(smallest.take().is_some());
    assert!(smallest.take().is_none());
    Ok(())
}

#[test]
fn set_status_undo_restores_status_and_completion() -> Result<(), String> {
    let today = day(2026, 4, 18);
    let mut state = AppState::new_for_date(today);
    let id = state.add_todo("lane", Priority::Medium, today);
    let undo = state.set_status_with_undo(id, Status::Done)?;
    assert!(state.todo(id).expect("task").completed_at.is_some());
    state.apply_undo(undo)?;
    let task = state.todo(id).expect("task");
    assert_eq!(task.status, Status::Backlog);
    assert!(task.completed_at.is_none());
    state.set_status(id, Status::Blocked)?;
    assert_eq!(state.todo(id).expect("task").status, Status::Blocked);
    assert!(state.todo(id).expect("task").completed_at.is_none());
    Ok(())
}

#[test]
fn changes_to_a_missing_task_fail_without_effect() {
    let today = day(2026, 4, 18);
    let mut state = AppState::new_for_date(today);
    state.add_todo("kept", Priority::Low, today);
    let missing = TodoId::nil();
    let message = Err("todo not found".to_string());
    assert_eq!(state.move_todo(missing, today), message);
    assert_eq!(state.toggle_done(missing), message);
    assert_eq!(state.set_status(missing, Status::Done), message);
    assert_eq!(state.delete_todo(missing), message);
    assert_eq!(state.update_todo(missing, "x".to_string(), Priority::High, today), message);
    assert_eq!(state.todos().len(), 1);
    assert_eq!(state.todos()[0].title, "kept");
}

#[test]
fn quick_add_reads_every_kind_of_token() -> Result<(), String> {
    let base = day(2026, 4, 18);
    let parsed = parse_quick_add("standup @09:30 !H @Today", Priority::Low, base)?;
    assert_eq!(parsed.title, "standup");
    assert_eq!(parsed.priority, Priority::High);
    assert_eq!(parsed.assigned_day, base);
    let due = parsed.due_time.expect("due");
    assert_eq!((due.hour(), due.minute()), (9, 30));

    let parsed = parse_quick_add("a !med b !low c", Priority::High, base)?;
    assert_eq!(parsed.title, "a b c");
    assert_eq!(parsed.priority, Priority::Low);

    let parsed = parse_quick_add("mail @home", Priority::High, base)?;
    assert_eq!(parsed.title, "mail @home");

    assert_eq!(
        parse_quick_add("   ", Priority::High, base).map(|p| p.title),
        Err("title cannot be empty".to_string())
    );
    assert_eq!(
        parse_quick_add("x @2026-02-30", Priority::High, base).map(|p| p.title),
        Err("invalid date token: @@2026-02-30".to_string())
    );
    Ok(())
}

#[test]
fn new_tasks_are_pending_inbox_items() {
    let today = day(2026, 4, 18);
    let todo = Todo::new("fresh", Priority::Medium, today);
    assert_eq!(todo.status, Status::Pending);
    assert_eq!(todo.area, Area::Inbox);
    assert!(todo.completed_at.is_none());
    assert!(todo.description.is_none());
    let noted = todo.clone().with_description("   ".to_string());
    assert!(noted.description.is_none());
    let noted = todo.with_description("real".to_string()).with_area(Area::Home);
    assert_eq!(noted.description.as_deref(), Some("real"));
    assert_eq!(noted.area, Area::Home);
}

#[test]
fn blank_notes_are_dropped_on_add() {
    let today = day(2026, 4, 18);
    let mut state = AppState::new_for_date(today);
    let id = state.add_todo_with_description("t", Priority::Low, today, Some(" \n".to_string()), None);
    assert!(state.todo(id).expect("task").description.is_none());
}

#[test]
fn buckets_compare_against_the_actual_day() {
    let selected = day(2026, 4, 16);
    let actual = day(2026, 4, 18);
    let earlier = Todo::new("earlier", Priority::Low, day(2026, 4, 15));
    let on_selected = Todo::new("on selected", Priority::Low, selected);
    let buckets = DayBuckets::for_day_as_of(selected, actual, &[earlier, on_selected]);
    assert_eq!(buckets.overdue.len(), 1);
    assert_eq!(buckets.overdue[0].title, "earlier");
    assert_eq!(buckets.today.len(), 1);
}

#[test]
fn themes_cycle_through_four_names() {
    let mut name = ThemeName::Dayroll;
    let mut seen = Vec::new();
    for _ in 0..4 {
        seen.push(name.as_str());
        name = name.next();
    }
    assert_eq!(name, ThemeName::Dayroll);
    assert_eq!(seen, vec!["dayroll", "nord", "gruvbox", "tokyo-night"]);
    assert_eq!(ThemeName::Dayroll.previous(), ThemeName::TokyoNight);
}

#[test]
fn search_ranks_exact_then_token_prefix_then_substring() {
    let today = day(2026, 4, 18);
    let titles = ["xray", "x-ray", "Ray", "stray dog", "r a y"];
    let todos: Vec<Todo> = titles.iter().map(|t| Todo::new(t, Priority::Low, today)).collect();
    let found = search_todos(&todos, "  RAY ");
    let order: Vec<&str> = found.iter().map(|t| t.title.as_str()).collect();
    assert_eq!(order, vec!["Ray", "x-ray", "xray", "stray dog", "r a y"]);
    assert_eq!(search_todos(&todos, "").len(), 5);
    assert!(search_todos(&todos, "zzz").is_empty());
}

#[test]
fn stamping_functions_use_the_given_instant() -> Result<(), String> {
    let today = day(2026, 4, 18);
    let at = Timestamp { secs: 1_776_500_000, nanos: 7 };
    let mut state = AppState::new_for_date(today);
    let id = TodoId(42);
    state.add_todo_at(id, at, "exact", Priority::High, today, Some(" ".to_string()), None);
    let task = state.todo(id).expect("task");
    assert_eq!(task.created_at, at);
    assert!(task.description.is_none());

    let later = Timestamp { secs: 1_776_600_000, nanos: 0 };
    state.toggle_done_at(id, later)?;
    assert_eq!(state.todo(id).expect("task").completed_at, Some(later));
    state.toggle_done_at(id, later)?;
    assert_eq!(state.todo(id).expect("task").completed_at, None);
    let undo = state.set_status_with_undo_at(id, Status::Done, at)?;
    assert_eq!(state.todo(id).expect("task").completed_at, Some(at));
    state.apply_undo(undo)?;
    assert_eq!(state.todo(id).expect("task").status, Status::Backlog);
    state.set_status_at(id, Status::Doing, at)?;
    assert_eq!(state.todo(id).expect("task").completed_at, None);
    let undo = state.toggle_done_with_undo_at(id, later)?;
    assert_eq!(state.todo(id).expect("task").completed_at, Some(later));
    state.apply_undo(undo)?;
    assert_eq!(state.todo(id).expect("task").status, Status::Doing);

    let made = Todo::new_with_identity(TodoId(7), at, "t", Priority::Low, today);
    assert_eq!(made.id, TodoId(7));
    assert_eq!(made.created_at, at);
    Ok(())
}
