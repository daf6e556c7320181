use dayroll::app::{footer_hint, month_grid, shift_month_date, viewport_window, Overlay};
use dayroll::date::Date;
use dayroll::markdown::{render_events, render_markdown, rendered_description, MdEvent, MdLine, MdTag};
use dayroll::model::{Area, Priority, Status, TodoId};
use dayroll::screen::{
    area_chip_label, board_counts, calendar_cells, calendar_title, centered_rect,
    description_preview, empty_message, form_error_line, help_key_text, month_name,
    lane_positions, lane_title, priority_chip_label, row_marker, priority_name, selected_index_in_rows, task_form_fields,
    task_form_heading, Rect,
};
use dayroll::ui_state::{TaskFormField, TaskFormState, VisibleTodo};

fn day(year: i32, month: u32, d: u32) -> Date {
    Date::from_ymd_opt(year, month, d).expect("valid date")
}

fn line_text(line: &MdLine) -> String {
    line.spans.iter().map(|s| s.text.clone()).collect()
}

#[test]
fn centered_rect_uses_percentages_and_minimums() {
    let area = Rect { x: 0, y: 0, width: 100, height: 40 };
    assert_eq!(centered_rect(60, 50, 10, 5, area), Rect { x: 20, y: 10, width: 60, height: 20 });
    let small = Rect { x: 3, y: 2, width: 10, height: 4 };
    assert_eq!(centered_rect(50, 50, 20, 10, small), Rect { x: 4, y: 3, width: 8, height: 2 });
    let tiny = Rect { x: 0, y: 0, width: 2, height: 2 };
    assert_eq!(centered_rect(50, 50, 1, 1, tiny), Rect { x: 1, y: 1, width: 1, height: 1 });
    let huge = Rect { x: 0, y: 0, width: 60000, height: 10 };
    assert_eq!(centered_rect(90, 100, 0, 0, huge).width, 655);
}

#[test]
fn month_names_and_chips() {
    assert_eq!(month_name(4), "April");
    assert_eq!(month_name(12), "December");
    assert_eq!(month_name(0), "Unknown");
    assert_eq!(month_name(13), "Unknown");
    assert_eq!(priority_chip_label(Priority::High), " P1 ");
    assert_eq!(priority_chip_label(Priority::Low), " P3 ");
    assert_eq!(area_chip_label(Area::Waiting), " waiting ");
    assert_eq!(priority_name(Priority::Medium), "Medium");
}

#[test]
fn description_preview_joins_lines_and_cuts_long_text() {
    assert_eq!(description_preview(""), "<empty>");
    assert_eq!(description_preview("one"), "one");
    assert_eq!(description_preview("a\r\nb\n"), "a ⏎ b");
    assert_eq!(description_preview("a\n\nb"), "a ⏎  ⏎ b");
    assert_eq!(description_preview("\n"), "");
    let long = "x".repeat(70);
    assert_eq!(description_preview(&long), format!("{}...", "x".repeat(64)));
    let exact = "y".repeat(64);
    assert_eq!(description_preview(&exact), exact);
}

#[test]
fn help_keys_are_padded_to_eighteen() {
    assert_eq!(help_key_text("Esc"), format!(" Esc{} ", " ".repeat(15)));
    let wide = "k".repeat(20);
    assert_eq!(help_key_text(&wide), format!(" {wide} "));
    assert_eq!(help_key_text("←/→").chars().count(), 20);
}

#[test]
fn empty_list_messages() {
    assert_eq!(empty_message(true, ""), "search active: type to filter");
    assert_eq!(empty_message(true, "x"), "no matching tasks");
    assert_eq!(empty_message(false, "x"), "no tasks");
}

fn row(status: Status) -> VisibleTodo {
    VisibleTodo {
        id: TodoId::nil(),
        label: String::new(),
        description: None,
        area: Area::Inbox,
        status,
        priority: Priority::Low,
    }
}

#[test]
fn board_counts_split_done_and_open() {
    let rows = vec![row(Status::Done), row(Status::Backlog), row(Status::Doing), row(Status::Done)];
    assert_eq!(board_counts(&rows), (2, 2));
    assert_eq!(board_counts(&[]), (0, 0));
}

#[test]
fn lanes_pick_rows_by_status() {
    let rows = vec![row(Status::Done), row(Status::Backlog), row(Status::Doing), row(Status::Done)];
    assert_eq!(lane_positions(&rows, Status::Done), vec![0, 3]);
    assert_eq!(lane_positions(&rows, Status::Backlog), vec![1]);
    assert_eq!(lane_positions(&rows, Status::Blocked), Vec::<usize>::new());
}

#[test]
fn selected_row_is_found_within_a_section() {
    assert_eq!(selected_index_in_rows(&[3, 5, 7], 5), 1);
    assert_eq!(selected_index_in_rows(&[3, 5, 7], 4), 0);
    assert_eq!(selected_index_in_rows(&[], 0), 0);
}

#[test]
fn calendar_cells_place_days_after_the_offset() {
    let cells = calendar_cells(day(2026, 4, 18)).expect("grid");
    assert_eq!(cells.len(), 42);
    assert_eq!(cells[2].text, "  ");
    assert_eq!(cells[3].text, " 1");
    assert_eq!(cells[20].text, "18");
    assert!(cells[20].selected);
    assert_eq!(cells.iter().filter(|c| c.selected).count(), 1);
    assert_eq!(cells[32].text, "30");
    assert_eq!(cells[33].text, "  ");
    let (title, heading) = calendar_title(day(2026, 4, 18));
    assert_eq!(title, "April 2026");
    assert_eq!(heading, "Sat 2026-04-18");
}

#[test]
fn calendar_of_the_last_month_cannot_be_counted() {
    let last = day(262142, 12, 1);
    assert_eq!(month_grid(last), Err("invalid date: 262143-1-1".to_string()));
    assert!(calendar_cells(last).is_err());
    assert_eq!(shift_month_date(day(262142, 11, 30), 1), Err("invalid date: 262143-1-1".to_string()));
    assert_eq!(shift_month_date(day(2024, 3, 31), -13), Ok(day(2023, 2, 28)));
}

#[test]
fn viewport_window_values() {
    assert_eq!(viewport_window(40, 22, 10), (17, 27));
    assert_eq!(viewport_window(40, 39, 10), (30, 40));
    assert_eq!(viewport_window(5, 3, 10), (0, 5));
    assert_eq!(viewport_window(5, 3, 0), (0, 0));
}

#[test]
fn footer_hints_are_exact() {
    assert_eq!(footer_hint(Overlay::Hidden, true, ""), ("[search: __] [Esc] clear".to_string(), true));
    assert_eq!(footer_hint(Overlay::Hidden, true, "ab"), ("[search: ab_] [Esc] clear".to_string(), true));
    assert_eq!(
        footer_hint(Overlay::Hidden, false, "ab"),
        ("[?] help [/] search [u] undo [q] quit [j/k] move [enter] done".to_string(), false)
    );
    assert_eq!(footer_hint(Overlay::Help, true, ""), ("[Esc/?] close help".to_string(), false));
    assert_eq!(footer_hint(Overlay::QuitConfirm, false, ""), ("[y] quit [n/Esc] cancel".to_string(), false));
}

#[test]
fn task_form_lines_show_each_field() {
    let mut form = TaskFormState {
        todo_id: None,
        title: "pay".to_string(),
        priority: Priority::High,
        date: day(2026, 4, 18),
        description: String::new(),
        field: TaskFormField::Date,
        error: None,
    };
    assert_eq!(task_form_heading(&form), "Add task");
    let lines = task_form_fields(&form);
    assert_eq!(lines.len(), 4);
    assert_eq!(lines[0].label, " title ");
    assert_eq!(lines[0].value, " pay");
    assert_eq!(lines[1].value, " High  (←/→)");
    assert_eq!(lines[2].value, " 2026-04-18  (←/→ day, ↑/↓ week, {/} month)");
    assert!(lines[2].active);
    assert!(!lines[0].active);
    assert_eq!(lines[3].value, " <empty>");
    assert!(form_error_line(&form).is_none());
    form.error = Some("bad".to_string());
    form.todo_id = Some(TodoId::nil());
    assert_eq!(form_error_line(&form), Some("error: bad".to_string()));
    assert_eq!(task_form_heading(&form), "Edit task");
}

#[test]
fn markdown_styles_follow_the_elements() {
    let lines = render_markdown("**b** _i_ `c`");
    assert_eq!(lines.len(), 1);
    let spans = &lines[0].spans;
    assert_eq!(spans[0].text, "b");
    assert!(spans[0].bold && !spans[0].italic && !spans[0].reversed);
    let italic = spans.iter().find(|s| s.text == "i").expect("italic span");
    assert!(italic.italic && !italic.bold);
    let code = spans.iter().find(|s| s.text == "c").expect("code span");
    assert!(code.reversed);
}

#[test]
fn markdown_lists_rules_and_trailing_lines() {
    let lines = render_markdown("- a\n- b");
    assert_eq!(lines.iter().map(line_text).collect::<Vec<_>>(), vec!["• a", "• b"]);
    let lines = render_markdown("top\n\n---\n\nend");
    assert_eq!(lines.iter().map(line_text).collect::<Vec<_>>(), vec!["top", "---", "end"]);
    let lines = render_markdown("");
    assert_eq!(lines.len(), 1);
    assert!(lines[0].spans.is_empty());
    let heading = render_markdown("# H");
    assert!(heading[0].spans[0].bold);
}

#[test]
fn event_layout_is_exact() {
    let events = vec![
        MdEvent::Start(MdTag::Paragraph),
        MdEvent::Text("a".to_string()),
        MdEvent::SoftBreak,
        MdEvent::Text("b".to_string()),
        MdEvent::HardBreak,
        MdEvent::Code("c".to_string()),
        MdEvent::End(MdTag::Paragraph),
        MdEvent::Other,
        MdEvent::Text(String::new()),
    ];
    let lines = render_events(&events);
    assert_eq!(lines.iter().map(line_text).collect::<Vec<_>>(), vec!["a b", "c"]);
    assert!(lines[1].spans[0].reversed);
}

#[test]
fn blank_notes_have_no_preview() {
    assert!(rendered_description("  \n ").is_none());
    let preview = rendered_description("# Heading\n- item\n**bold**").expect("preview");
    let texts: Vec<String> = preview.iter().map(line_text).collect();
    assert_eq!(texts[0], "Heading");
    let flattened = texts.join("\n");
    assert!(flattened.contains("• item"));
    assert!(flattened.contains("bold"));
}

#[test]
fn lane_titles_and_markers() {
    assert_eq!(lane_title(Status::Backlog, 3, 12), " Backlog  todo:3 done:12 ");
    assert_eq!(lane_title(Status::Blocked, 3, 12), " Blocked ");
    assert_eq!(row_marker(true), "▶ ");
    assert_eq!(row_marker(false), "  ");
}
