//! The application state: tasks, the selected day, search, undo history,
//! the day buckets and the ranked search results.
pub mod calendar;
pub mod quick_add;
pub mod search;
pub mod undo;

pub use calendar::{month_grid, shift_month_date, viewport_window};
pub use search::{
    archived_completed_todos, board_todos, search_todos, status_lane_index, DayBuckets,
};
pub use quick_add::{parse_quick_add, QuickAddParsed};


pub use undo::{UndoAction, UndoSlot};

use vstd::prelude::*;
use crate::date::{next_date, prev_date, Date, Time};
use crate::model::{
    fresh_todo_id, kept_note, now_utc, text_view, Area, Priority, Status, Timestamp, Todo, TodoId, TodoView,
    todo_views,
};
use crate::text::{concat, owned, pop_char, push_char, to_chars, is_blank};
use self::calendar::shift_month_spec;
use self::undo::{UndoView, undo_view};

verus! {

/// Which overlay covers the main view.
#[derive(Clone, Copy, Debug, PartialEq, Eq, Structural)]
pub enum Overlay {
    /// No overlay is shown.
    Hidden,
    Help,
    QuitConfirm,
}

/// The overlay after pressing the help key: help opens, or closes when shown.
pub open spec fn help_toggled(current: Overlay) -> Overlay {
    if current == Overlay::Help {
        Overlay::Hidden
    } else {
        Overlay::Help
    }
}

/// The overlay after asking to quit: the confirmation opens from the main
/// view, help closes, and an open confirmation stays.
pub open spec fn quit_requested(current: Overlay) -> Overlay {
    match current {
        Overlay::Hidden => Overlay::QuitConfirm,
        Overlay::Help => Overlay::Hidden,
        Overlay::QuitConfirm => Overlay::QuitConfirm,
    }
}

pub fn toggle_help_overlay(current: Overlay) -> (r: Overlay)
    ensures
        r == help_toggled(current),
{
    if current == Overlay::Help {
        Overlay::Hidden
    } else {
        Overlay::Help
    }
}

pub fn request_quit_overlay(current: Overlay) -> (r: Overlay)
    ensures
        r == quit_requested(current),
{
    match current {
        Overlay::Hidden => Overlay::QuitConfirm,
        Overlay::Help => Overlay::Hidden,
        Overlay::QuitConfirm => Overlay::QuitConfirm,
    }
}

/// Pressing the help key twice leaves the main view or the help as it was.
pub proof fn law_help_toggle_twice(current: Overlay)
    requires
        current != Overlay::QuitConfirm,
    ensures
        help_toggled(help_toggled(current)) == current,
{
}

/// Asking to quit twice from the main view still shows the confirmation.
pub proof fn law_quit_request_settles(current: Overlay)
    ensures
        quit_requested(current) == Overlay::QuitConfirm ==> quit_requested(
            quit_requested(current),
        ) == Overlay::QuitConfirm,
{
}

/// The footer line for the main view, and whether it shows a live search.
pub open spec fn footer_text(overlay: Overlay, search_active: bool, query: Seq<char>) -> (
    Seq<char>,
    bool,
) {
    match overlay {
        Overlay::Hidden => {
            if search_active {
                if query.len() == 0 {
                    ("[search: __] [Esc] clear"@, true)
                } else {
                    ("[search: "@ + query + "_] [Esc] clear"@, true)
                }
            } else {
                ("[?] help [/] search [u] undo [q] quit [j/k] move [enter] done"@, false)
            }
        },
        Overlay::Help => ("[Esc/?] close help"@, false),
        Overlay::QuitConfirm => ("[y] quit [n/Esc] cancel"@, false),
    }
}

pub fn footer_hint(overlay: Overlay, search_active: bool, search_query: &str) -> (r: (
    String,
    bool,
))
    ensures
        r.0@ == footer_text(overlay, search_active, search_query@).0,
        r.1 == footer_text(overlay, search_active, search_query@).1,
{
    match overlay {
        Overlay::Hidden => {
            if search_active {
                if search_query.is_empty() {
                    (owned("[search: __] [Esc] clear"), true)
                } else {
                    let front = concat(owned("[search: "), search_query);
                    (concat(front, "_] [Esc] clear"), true)
                }
            } else {
                (owned("[?] help [/] search [u] undo [q] quit [j/k] move [enter] done"), false)
            }
        },
        Overlay::Help => (owned("[Esc/?] close help"), false),
        Overlay::QuitConfirm => (owned("[y] quit [n/Esc] cancel"), false),
    }
}

/// The value of the application state.
pub struct AppStateView {
    pub selected_day: Date,
    pub todos: Seq<TodoView>,
    pub search_query: Seq<char>,
    pub search_active: bool,
}

#[derive(Clone, Debug)]
pub struct AppState {
    selected_day: Date,
    todos: Vec<Todo>,
    search_query: String,
    search_active: bool,
}

impl View for AppState {
    type V = AppStateView;

    closed spec fn view(&self) -> AppStateView {
        AppStateView {
            selected_day: self.selected_day,
            todos: todo_views(self.todos@),
            search_query: self.search_query@,
            search_active: self.search_active,
        }
    }
}

/// `i` is the first position of `s` whose task has identifier `id`.
pub open spec fn first_with_id(s: Seq<TodoView>, id: TodoId, i: int) -> bool {
    &&& 0 <= i < s.len()
    &&& s[i].id == id
    &&& forall|j: int| 0 <= j < i ==> s[j].id != id
}

/// The first position of `s` whose task has identifier `id`, if any.
pub open spec fn index_of(s: Seq<TodoView>, id: TodoId) -> Option<int> {
    if exists|i: int| first_with_id(s, id, i) {
        Some(choose|i: int| first_with_id(s, id, i))
    } else {
        None
    }
}

/// There is at most one first position.
pub proof fn lemma_first_with_id_unique(s: Seq<TodoView>, id: TodoId, i: int, j: int)
    requires
        first_with_id(s, id, i),
        first_with_id(s, id, j),
    ensures
        i == j,
{
    if i < j {
        assert(s[i].id != id);
    } else if j < i {
        assert(s[j].id != id);
    }
}

/// When `i` is the first position with `id`, `index_of` gives it.
pub proof fn lemma_index_of_is(s: Seq<TodoView>, id: TodoId, i: int)
    requires
        first_with_id(s, id, i),
    ensures
        index_of(s, id) == Some(i),
{
    let k = choose|k: int| first_with_id(s, id, k);
    lemma_first_with_id_unique(s, id, i, k);
}

/// `index_of` depends on the identifiers alone.
pub proof fn lemma_index_of_same_ids(s: Seq<TodoView>, t: Seq<TodoView>, id: TodoId)
    requires
        s.len() == t.len(),
        forall|k: int| 0 <= k < s.len() ==> #[trigger] s[k].id == t[k].id,
    ensures
        index_of(s, id) == index_of(t, id),
{
    assert forall|i: int| first_with_id(s, id, i) <==> first_with_id(t, id, i) by {
        if 0 <= i < s.len() {
            assert(s[i].id == t[i].id);
            assert forall|j: int| 0 <= j < i implies s[j].id == t[j].id by {
                assert(s[j].id == t[j].id);
            }
        }
    }
    if exists|i: int| first_with_id(s, id, i) {
        let i = choose|i: int| first_with_id(s, id, i);
        lemma_index_of_is(t, id, i);
    }
}

/// The message of a failed lookup.
pub open spec fn not_found_text() -> Seq<char> {
    "todo not found"@
}

/// `t` assigned to `day`.
pub open spec fn with_day(t: TodoView, day: Date) -> TodoView {
    TodoView { assigned_day: day, ..t }
}

/// `t` with the given status and completion instant.
pub open spec fn with_status(t: TodoView, status: Status, completed_at: Option<Timestamp>) -> TodoView {
    TodoView { status, completed_at, ..t }
}

/// The tasks after moving the first task with `id` to `day`.
pub open spec fn moved(s: Seq<TodoView>, id: TodoId, day: Date) -> Seq<TodoView> {
    match index_of(s, id) {
        Some(i) => s.update(i, with_day(s[i], day)),
        None => s,
    }
}

/// `t` with its title, priority, day, due time and note replaced, the note
/// dropped when blank.
pub open spec fn edited(
    t: TodoView,
    title: Seq<char>,
    priority: Priority,
    day: Date,
    description: Option<Seq<char>>,
    due_time: Option<Time>,
) -> TodoView {
    TodoView {
        title,
        priority,
        assigned_day: day,
        due_time,
        description: match description {
            Some(d) => kept_note(d),
            None => None,
        },
        ..t
    }
}

/// The tasks after undoing `u`, or `None` when the task it names is gone.
pub open spec fn undo_spec(s: Seq<TodoView>, u: UndoView) -> Option<Seq<TodoView>> {
    match u {
        UndoView::Delete { todo, index } => {
            let at = if index <= s.len() {
                index
            } else {
                s.len() as int
            };
            Some(s.insert(at, todo))
        },
        UndoView::Move { id, previous_day } => match index_of(s, id) {
            Some(i) => Some(moved(s, id, previous_day)),
            None => None,
        },
        UndoView::Toggle { id, previous_status, previous_completed_at } => match index_of(s, id) {
            Some(i) => Some(s.update(i, with_status(s[i], previous_status, previous_completed_at))),
            None => None,
        },
        UndoView::SetStatus { id, previous_status, previous_completed_at } => match index_of(
            s,
            id,
        ) {
            Some(i) => Some(s.update(i, with_status(s[i], previous_status, previous_completed_at))),
            None => None,
        },
    }
}

/// The day that a day step leaves selected: the next (or previous) day, or
/// the same day at the end of the range.
pub open spec fn step_day(day: Date, next: Option<crate::date::DateView>, moved_to: Date) -> bool {
    match next {
        Some(v) => moved_to@ == v,
        None => moved_to == day,
    }
}

impl AppState {
    /// Position of the first task with `id`.
    fn position(&self, id: TodoId) -> (r: Option<usize>)
        ensures
            r matches Some(i) ==> index_of(self@.todos, id) == Some(i as int) && i < self@.todos.len(),
            r is None ==> index_of(self@.todos, id) is None,
    {
        let ghost s = self@.todos;
        let mut i: usize = 0;
        while i < self.todos.len()
            invariant
                i <= self.todos@.len(),
                s == todo_views(self.todos@),
                forall|j: int| 0 <= j < i ==> s[j].id != id,
            decreases self.todos@.len() - i,
        {
            if self.todos[i].id == id {
                proof {
                    assert(first_with_id(s, id, i as int));
                    lemma_index_of_is(s, id, i as int);
                }
                return Some(i);
            }
            i = i + 1;
        }
        assert(!exists|k: int| first_with_id(s, id, k));
        None
    }

    /// A state showing `day`, with no tasks and no search.
    pub fn new_for_date(day: Date) -> (r: AppState)
        ensures
            r@.selected_day == day,
            r@.todos == Seq::<TodoView>::empty(),
            r@.search_query == Seq::<char>::empty(),
            !r@.search_active,
    {
        AppState {
            selected_day: day,
            todos: Vec::new(),
            search_query: String::new(),
            search_active: false,
        }
    }

    /// A state showing `day` over the given tasks, with no search.
    pub fn with_todos(day: Date, todos: Vec<Todo>) -> (r: AppState)
        ensures
            r@.selected_day == day,
            r@.todos == todo_views(todos@),
            r@.search_query == Seq::<char>::empty(),
            !r@.search_active,
    {
        AppState { selected_day: day, todos, search_query: String::new(), search_active: false }
    }

    pub fn selected_day(&self) -> (r: Date)
        ensures
            r == self@.selected_day,
    {
        self.selected_day
    }

    pub fn set_selected_day(&mut self, day: Date)
        ensures
            final(self)@ == (AppStateView { selected_day: day, ..old(self)@ }),
    {
        self.selected_day = day;
    }

    pub fn search_query(&self) -> (r: &str)
        ensures
            r@ == self@.search_query,
    {
        self.search_query.as_str()
    }

    pub fn search_active(&self) -> (r: bool)
        ensures
            r == self@.search_active,
    {
        self.search_active
    }

    pub fn activate_search(&mut self)
        ensures
            final(self)@ == (AppStateView { search_active: true, ..old(self)@ }),
    {
        self.search_active = true;
    }

    /// Types one character into the search, which turns search on.
    pub fn append_search_char(&mut self, character: char)
        ensures
            final(self)@ == (AppStateView {
                search_active: true,
                search_query: old(self)@.search_query.push(character),
                ..old(self)@
            }),
    {
        self.search_active = true;
        push_char(&mut self.search_query, character);
    }

    /// Erases the last character of the search, if any.
    pub fn pop_search_char(&mut self)
        ensures
            final(self)@ == (AppStateView {
                search_query: if old(self)@.search_query.len() > 0 {
                    old(self)@.search_query.drop_last()
                } else {
                    old(self)@.search_query
                },
                ..old(self)@
            }),
    {
        let _ = pop_char(&mut self.search_query);
    }

    /// Empties the search and turns it off.
    pub fn clear_search(&mut self)
        ensures
            final(self)@ == (AppStateView {
                search_active: false,
                search_query: Seq::<char>::empty(),
                ..old(self)@
            }),
    {
        self.search_query = String::new();
        self.search_active = false;
    }

    /// Replaces the search; search is on exactly when the query is non-empty.
    pub fn set_search_query(&mut self, query: String)
        ensures
            final(self)@ == (AppStateView {
                search_active: query@.len() > 0,
                search_query: query@,
                ..old(self)@
            }),
    {
        self.search_active = !query.as_str().is_empty();
        self.search_query = query;
    }

    pub fn cancel_search(&mut self)
        ensures
            final(self)@ == (AppStateView {
                search_active: false,
                search_query: Seq::<char>::empty(),
                ..old(self)@
            }),
    {
        self.clear_search();
    }
}

/// The status that toggling leaves: done tasks become pending, the others done.
pub open spec fn toggled(status: Status) -> Status {
    if status == Status::Done {
        Status::Backlog
    } else {
        Status::Done
    }
}

/// The completion instant toggling a task of status `status` at instant
/// `now` leaves: none when it was done, `now` otherwise.
pub open spec fn toggle_stamp(status: Status, now: Timestamp) -> Option<Timestamp> {
    if status == Status::Done {
        None
    } else {
        Some(now)
    }
}

/// The completion instant of a task set to `status` at instant `now`.
pub open spec fn status_stamp(status: Status, now: Timestamp) -> Option<Timestamp> {
    if status == Status::Done {
        Some(now)
    } else {
        None
    }
}

/// The value of a task just added.
pub open spec fn fresh_todo(
    id: TodoId,
    title: Seq<char>,
    priority: Priority,
    day: Date,
    created_at: Timestamp,
    description: Option<Seq<char>>,
    due_time: Option<Time>,
) -> TodoView {
    TodoView {
        id,
        title,
        area: Area::Inbox,
        status: Status::Backlog,
        priority,
        assigned_day: day,
        created_at,
        completed_at: None,
        description: match description {
            Some(d) => kept_note(d),
            None => None,
        },
        due_time,
    }
}

/// Whether a state differs from `before` in its tasks alone.
pub open spec fn only_todos_changed(before: AppStateView, after: AppStateView) -> bool {
    after == (AppStateView { todos: after.todos, ..before })
}

impl AppState {
    /// Adds a pending task and returns its new identifier.
    pub fn add_todo(&mut self, title: &str, priority: Priority, assigned_day: Date) -> (r: TodoId)
        ensures
            only_todos_changed(old(self)@, final(self)@),
            final(self)@.todos == old(self)@.todos.push(
                fresh_todo(
                    r,
                    title@,
                    priority,
                    assigned_day,
                    final(self)@.todos.last().created_at,
                    None,
                    None,
                ),
            ),
    {
        self.add_todo_with_description(title, priority, assigned_day, None, None)
    }

    /// Adds a pending task, with a note unless the note is blank and a due
    /// time if one is given, and returns its new identifier.
    pub fn add_todo_with_description(
        &mut self,
        title: &str,
        priority: Priority,
        assigned_day: Date,
        description: Option<String>,
        due_time: Option<Time>,
    ) -> (r: TodoId)
        ensures
            only_todos_changed(old(self)@, final(self)@),
            final(self)@.todos == old(self)@.todos.push(
                fresh_todo(
                    r,
                    title@,
                    priority,
                    assigned_day,
                    final(self)@.todos.last().created_at,
                    text_view(description),
                    due_time,
                ),
            ),
    {
        let id = fresh_todo_id();
        self.add_todo_at(id, now_utc(), title, priority, assigned_day, description, due_time);
        id
    }

    /// Adds a pending task with the given identifier and creation instant,
    /// with a note unless the note is blank and a due time if one is given.
    pub fn add_todo_at(
        &mut self,
        id: TodoId,
        created_at: Timestamp,
        title: &str,
        priority: Priority,
        assigned_day: Date,
        description: Option<String>,
        due_time: Option<Time>,
    )
        ensures
            only_todos_changed(old(self)@, final(self)@),
            final(self)@.todos == old(self)@.todos.push(
                fresh_todo(
                    id,
                    title@,
                    priority,
                    assigned_day,
                    created_at,
                    text_view(description),
                    due_time,
                ),
            ),
    {
        let mut todo = Todo::new_with_identity(id, created_at, title, priority, assigned_day)
            .with_due_time(due_time);
        match description {
            Some(description_text) => {
                todo = todo.with_description(description_text);
            },
            None => {},
        }
        let ghost before = self.todos@;
        self.todos.push(todo);
        assert(todo_views(self.todos@) =~= todo_views(before).push(todo@));
    }

    /// Assigns the first task with `id` to `target_day`.
    pub fn move_todo(&mut self, id: TodoId, target_day: Date) -> (r: Result<(), String>)
        ensures
            only_todos_changed(old(self)@, final(self)@),
            final(self)@.todos == moved(old(self)@.todos, id, target_day),
            r is Ok <==> index_of(old(self)@.todos, id) is Some,
            r matches Err(e) ==> e@ == not_found_text(),
    {
        match self.position(id) {
            Some(i) => {
                let ghost before = todo_views(self.todos@);
                self.todos[i].assigned_day = target_day;
                assert(todo_views(self.todos@) =~= before.update(
                    i as int,
                    with_day(before[i as int], target_day),
                ));
                Ok(())
            },
            None => Err(owned("todo not found")),
        }
    }

    /// Moves like `move_todo` and returns the record that takes it back.
    pub fn move_todo_with_undo(&mut self, id: TodoId, target_day: Date) -> (r: Result<
        UndoAction,
        String,
    >)
        ensures
            only_todos_changed(old(self)@, final(self)@),
            final(self)@.todos == moved(old(self)@.todos, id, target_day),
            r is Ok <==> index_of(old(self)@.todos, id) is Some,
            r matches Err(e) ==> e@ == not_found_text(),
            r matches Ok(u) ==> u@ == (UndoView::Move {
                id,
                previous_day: old(self)@.todos[index_of(old(self)@.todos, id)->0].assigned_day,
            }),
    {
        let previous_day = match self.position(id) {
            Some(i) => self.todos[i].assigned_day,
            None => {
                return Err(owned("todo not found"));
            },
        };
        match self.move_todo(id, target_day) {
            Ok(()) => Ok(UndoAction::Move { id, previous_day }),
            Err(e) => Err(e),
        }
    }

    /// Marks a done task pending (clearing its completion instant) and any
    /// other task done (stamping the current instant).
    pub fn toggle_done(&mut self, id: TodoId) -> (r: Result<(), String>)
        ensures
            only_todos_changed(old(self)@, final(self)@),
            r is Ok <==> index_of(old(self)@.todos, id) is Some,
            r matches Err(e) ==> e@ == not_found_text() && final(self)@ == old(self)@,
            index_of(old(self)@.todos, id) matches Some(i) ==> {
                let t = old(self)@.todos[i];
                let c = final(self)@.todos[i].completed_at;
                &&& final(self)@.todos == old(self)@.todos.update(
                    i,
                    with_status(t, toggled(t.status), c),
                )
                &&& (c is None <==> t.status == Status::Done)
            },
    {
        self.toggle_done_at(id, now_utc())
    }

    /// Toggles like `toggle_done`, stamping `now` as the completion instant
    /// of a task that becomes done.
    pub fn toggle_done_at(&mut self, id: TodoId, now: Timestamp) -> (r: Result<(), String>)
        ensures
            only_todos_changed(old(self)@, final(self)@),
            r is Ok <==> index_of(old(self)@.todos, id) is Some,
            r matches Err(e) ==> e@ == not_found_text() && final(self)@ == old(self)@,
            index_of(old(self)@.todos, id) matches Some(i) ==> {
                let t = old(self)@.todos[i];
                final(self)@.todos == old(self)@.todos.update(
                    i,
                    with_status(t, toggled(t.status), toggle_stamp(t.status, now)),
                )
            },
    {
        match self.position(id) {
            Some(i) => {
                let ghost before = todo_views(self.todos@);
                if self.todos[i].status == Status::Done {
                    self.todos[i].status = Status::Backlog;
                    self.todos[i].completed_at = None;
                } else {
                    self.todos[i].status = Status::Done;
                    self.todos[i].completed_at = Some(now);
                }
                assert(todo_views(self.todos@) =~= before.update(
                    i as int,
                    with_status(
                        before[i as int],
                        toggled(before[i as int].status),
                        toggle_stamp(before[i as int].status, now),
                    ),
                ));
                Ok(())
            },
            None => Err(owned("todo not found")),
        }
    }

    /// Toggles like `toggle_done` and returns the record that takes it back.
    pub fn toggle_done_with_undo(&mut self, id: TodoId) -> (r: Result<UndoAction, String>)
        ensures
            only_todos_changed(old(self)@, final(self)@),
            r is Ok <==> index_of(old(self)@.todos, id) is Some,
            r matches Err(e) ==> e@ == not_found_text() && final(self)@ == old(self)@,
            index_of(old(self)@.todos, id) matches Some(i) ==> {
                let t = old(self)@.todos[i];
                let c = final(self)@.todos[i].completed_at;
                &&& final(self)@.todos == old(self)@.todos.update(
                    i,
                    with_status(t, toggled(t.status), c),
                )
                &&& (c is None <==> t.status == Status::Done)
                &&& r matches Ok(u) && u@ == (UndoView::Toggle {
                    id,
                    previous_status: t.status,
                    previous_completed_at: t.completed_at,
                })
            },
    {
        self.toggle_done_with_undo_at(id, now_utc())
    }

    /// Toggles like `toggle_done_at` and returns the record that takes it
    /// back.
    pub fn toggle_done_with_undo_at(&mut self, id: TodoId, now: Timestamp) -> (r: Result<
        UndoAction,
        String,
    >)
        ensures
            only_todos_changed(old(self)@, final(self)@),
            r is Ok <==> index_of(old(self)@.todos, id) is Some,
            r matches Err(e) ==> e@ == not_found_text() && final(self)@ == old(self)@,
            index_of(old(self)@.todos, id) matches Some(i) ==> {
                let t = old(self)@.todos[i];
                &&& final(self)@.todos == old(self)@.todos.update(
                    i,
                    with_status(t, toggled(t.status), toggle_stamp(t.status, now)),
                )
                &&& r matches Ok(u) && u@ == (UndoView::Toggle {
                    id,
                    previous_status: t.status,
                    previous_completed_at: t.completed_at,
                })
            },
    {
        let undo = match self.position(id) {
            Some(i) => UndoAction::Toggle {
                id,
                previous_status: self.todos[i].status,
                previous_completed_at: self.todos[i].completed_at,
            },
            None => {
                return Err(owned("todo not found"));
            },
        };
        match self.toggle_done_at(id, now) {
            Ok(()) => Ok(undo),
            Err(e) => Err(e),
        }
    }

    /// Sets the status of the first task with `id`; a done task gets the
    /// current instant as its completion instant, any other none.
    pub fn set_status(&mut self, id: TodoId, status: Status) -> (r: Result<(), String>)
        ensures
            only_todos_changed(old(self)@, final(self)@),
            r is Ok <==> index_of(old(self)@.todos, id) is Some,
            r matches Err(e) ==> e@ == not_found_text() && final(self)@ == old(self)@,
            index_of(old(self)@.todos, id) matches Some(i) ==> {
                let c = final(self)@.todos[i].completed_at;
                &&& final(self)@.todos == old(self)@.todos.update(
                    i,
                    with_status(old(self)@.todos[i], status, c),
                )
                &&& (c is Some <==> status == Status::Done)
            },
    {
        self.set_status_at(id, status, now_utc())
    }

    /// Sets the status like `set_status`, with `now` as the completion
    /// instant when the status is done.
    pub fn set_status_at(&mut self, id: TodoId, status: Status, now: Timestamp) -> (r: Result<
        (),
        String,
    >)
        ensures
            only_todos_changed(old(self)@, final(self)@),
            r is Ok <==> index_of(old(self)@.todos, id) is Some,
            r matches Err(e) ==> e@ == not_found_text() && final(self)@ == old(self)@,
            index_of(old(self)@.todos, id) matches Some(i) ==> final(self)@.todos == old(
                self,
            )@.todos.update(i, with_status(old(self)@.todos[i], status, status_stamp(status, now))),
    {
        match self.position(id) {
            Some(i) => {
                let ghost before = todo_views(self.todos@);
                let completed_at = if status == Status::Done {
                    Some(now)
                } else {
                    None
                };
                self.todos[i].status = status;
                self.todos[i].completed_at = completed_at;
                assert(todo_views(self.todos@) =~= before.update(
                    i as int,
                    with_status(before[i as int], status, completed_at),
                ));
                Ok(())
            },
            None => Err(owned("todo not found")),
        }
    }

    /// Sets the status like `set_status` and returns the record that takes
    /// it back.
    pub fn set_status_with_undo(&mut self, id: TodoId, status: Status) -> (r: Result<
        UndoAction,
        String,
    >)
        ensures
            only_todos_changed(old(self)@, final(self)@),
            r is Ok <==> index_of(old(self)@.todos, id) is Some,
            r matches Err(e) ==> e@ == not_found_text() && final(self)@ == old(self)@,
            index_of(old(self)@.todos, id) matches Some(i) ==> {
                let t = old(self)@.todos[i];
                let c = final(self)@.todos[i].completed_at;
                &&& final(self)@.todos == old(self)@.todos.update(i, with_status(t, status, c))
                &&& (c is Some <==> status == Status::Done)
                &&& r matches Ok(u) && u@ == (UndoView::SetStatus {
                    id,
                    previous_status: t.status,
                    previous_completed_at: t.completed_at,
                })
            },
    {
        self.set_status_with_undo_at(id, status, now_utc())
    }

    /// Sets the status like `set_status_at` and returns the record that
    /// takes it back.
    pub fn set_status_with_undo_at(&mut self, id: TodoId, status: Status, now: Timestamp) -> (r:
        Result<UndoAction, String>)
        ensures
            only_todos_changed(old(self)@, final(self)@),
            r is Ok <==> index_of(old(self)@.todos, id) is Some,
            r matches Err(e) ==> e@ == not_found_text() && final(self)@ == old(self)@,
            index_of(old(self)@.todos, id) matches Some(i) ==> {
                let t = old(self)@.todos[i];
                &&& final(self)@.todos == old(self)@.todos.update(
                    i,
                    with_status(t, status, status_stamp(status, now)),
                )
                &&& r matches Ok(u) && u@ == (UndoView::SetStatus {
                    id,
                    previous_status: t.status,
                    previous_completed_at: t.completed_at,
                })
            },
    {
        let undo = match self.position(id) {
            Some(i) => UndoAction::SetStatus {
                id,
                previous_status: self.todos[i].status,
                previous_completed_at: self.todos[i].completed_at,
            },
            None => {
                return Err(owned("todo not found"));
            },
        };
        match self.set_status_at(id, status, now) {
            Ok(()) => Ok(undo),
            Err(e) => Err(e),
        }
    }

    /// Removes the first task with `id`.
    pub fn delete_todo(&mut self, id: TodoId) -> (r: Result<(), String>)
        ensures
            only_todos_changed(old(self)@, final(self)@),
            r is Ok <==> index_of(old(self)@.todos, id) is Some,
            r matches Err(e) ==> e@ == not_found_text() && final(self)@ == old(self)@,
            index_of(old(self)@.todos, id) matches Some(i) ==> final(self)@.todos == old(
                self,
            )@.todos.remove(i),
    {
        match self.position(id) {
            Some(i) => {
                let ghost before = todo_views(self.todos@);
                let _ = self.todos.remove(i);
                assert(todo_views(self.todos@) =~= before.remove(i as int));
                Ok(())
            },
            None => Err(owned("todo not found")),
        }
    }

    /// Removes like `delete_todo` and returns the record that puts the task
    /// back where it was.
    pub fn delete_todo_with_undo(&mut self, id: TodoId) -> (r: Result<UndoAction, String>)
        ensures
            only_todos_changed(old(self)@, final(self)@),
            r is Ok <==> index_of(old(self)@.todos, id) is Some,
            r matches Err(e) ==> e@ == not_found_text() && final(self)@ == old(self)@,
            index_of(old(self)@.todos, id) matches Some(i) ==> {
                &&& final(self)@.todos == old(self)@.todos.remove(i)
                &&& r matches Ok(u) && u@ == (UndoView::Delete {
                    todo: old(self)@.todos[i],
                    index: i,
                })
            },
    {
        match self.position(id) {
            Some(i) => {
                let ghost before = todo_views(self.todos@);
                let todo = self.todos.remove(i);
                assert(todo_views(self.todos@) =~= before.remove(i as int));
                Ok(UndoAction::Delete { todo, index: i })
            },
            None => Err(owned("todo not found")),
        }
    }

    /// Takes back the change that `undo` records: a deleted task returns to
    /// its place (or the end), a moved task to its day, a toggled task to its
    /// status and completion instant.
    pub fn apply_undo(&mut self, undo: UndoAction) -> (r: Result<(), String>)
        ensures
            only_todos_changed(old(self)@, final(self)@),
            r is Ok <==> undo_spec(old(self)@.todos, undo@) is Some,
            r matches Ok(_) ==> final(self)@.todos == undo_spec(old(self)@.todos, undo@)->0,
            r matches Err(e) ==> e@ == not_found_text() && final(self)@ == old(self)@,
    {
        match undo {
            UndoAction::Delete { todo, index } => {
                let insert_at = if index <= self.todos.len() {
                    index
                } else {
                    self.todos.len()
                };
                let ghost before = todo_views(self.todos@);
                let ghost value = todo@;
                self.todos.insert(insert_at, todo);
                assert(todo_views(self.todos@) =~= before.insert(insert_at as int, value));
                Ok(())
            },
            UndoAction::Move { id, previous_day } => self.move_todo(id, previous_day),
            UndoAction::Toggle { id, previous_status, previous_completed_at } => {
                self.restore_status(id, previous_status, previous_completed_at)
            },
            UndoAction::SetStatus { id, previous_status, previous_completed_at } => {
                self.restore_status(id, previous_status, previous_completed_at)
            },
        }
    }

    /// Puts back the status and completion instant of the first task with `id`.
    fn restore_status(
        &mut self,
        id: TodoId,
        status: Status,
        completed_at: Option<Timestamp>,
    ) -> (r: Result<(), String>)
        ensures
            only_todos_changed(old(self)@, final(self)@),
            r is Ok <==> index_of(old(self)@.todos, id) is Some,
            r matches Err(e) ==> e@ == not_found_text() && final(self)@ == old(self)@,
            index_of(old(self)@.todos, id) matches Some(i) ==> final(self)@.todos == old(
                self,
            )@.todos.update(i, with_status(old(self)@.todos[i], status, completed_at)),
    {
        match self.position(id) {
            Some(i) => {
                let ghost before = todo_views(self.todos@);
                self.todos[i].status = status;
                self.todos[i].completed_at = completed_at;
                assert(todo_views(self.todos@) =~= before.update(
                    i as int,
                    with_status(before[i as int], status, completed_at),
                ));
                Ok(())
            },
            None => Err(owned("todo not found")),
        }
    }

    /// Replaces the title, priority and day of the first task with `id`,
    /// clearing its note and due time.
    pub fn update_todo(
        &mut self,
        id: TodoId,
        title: String,
        priority: Priority,
        assigned_day: Date,
    ) -> (r: Result<(), String>)
        ensures
            only_todos_changed(old(self)@, final(self)@),
            r is Ok <==> index_of(old(self)@.todos, id) is Some,
            r matches Err(e) ==> e@ == not_found_text() && final(self)@ == old(self)@,
            index_of(old(self)@.todos, id) matches Some(i) ==> final(self)@.todos == old(
                self,
            )@.todos.update(
                i,
                edited(old(self)@.todos[i], title@, priority, assigned_day, None, None),
            ),
    {
        self.update_todo_with_description(id, title, priority, assigned_day, None, None)
    }

    /// Replaces the title, priority, day, note (dropped when blank) and due
    /// time of the first task with `id`.
    pub fn update_todo_with_description(
        &mut self,
        id: TodoId,
        title: String,
        priority: Priority,
        assigned_day: Date,
        description: Option<String>,
        due_time: Option<Time>,
    ) -> (r: Result<(), String>)
        ensures
            only_todos_changed(old(self)@, final(self)@),
            r is Ok <==> index_of(old(self)@.todos, id) is Some,
            r matches Err(e) ==> e@ == not_found_text() && final(self)@ == old(self)@,
            index_of(old(self)@.todos, id) matches Some(i) ==> final(self)@.todos == old(
                self,
            )@.todos.update(
                i,
                edited(
                    old(self)@.todos[i],
                    title@,
                    priority,
                    assigned_day,
                    text_view(description),
                    due_time,
                ),
            ),
    {
        match self.position(id) {
            Some(i) => {
                let ghost before = todo_views(self.todos@);
                let ghost title_value = title@;
                let ghost description_value = text_view(description);
                let note = match description {
                    Some(value) => {
                        let chars = to_chars(value.as_str());
                        if is_blank(chars.as_slice()) {
                            None
                        } else {
                            Some(value)
                        }
                    },
                    None => None,
                };
                self.todos[i].title = title;
                self.todos[i].priority = priority;
                self.todos[i].assigned_day = assigned_day;
                self.todos[i].due_time = due_time;
                self.todos[i].description = note;
                assert(todo_views(self.todos@) =~= before.update(
                    i as int,
                    edited(
                        before[i as int],
                        title_value,
                        priority,
                        assigned_day,
                        description_value,
                        due_time,
                    ),
                ));
                Ok(())
            },
            None => Err(owned("todo not found")),
        }
    }

    /// Selects the next day, unless the selected day is the last one.
    pub fn select_next_day(&mut self)
        ensures
            final(self)@ == (AppStateView { selected_day: final(self)@.selected_day, ..old(self)@ }),
            step_day(old(self)@.selected_day, next_date(old(self)@.selected_day@), final(self)@.selected_day),
    {
        match self.selected_day.succ_opt() {
            Some(next) => {
                self.selected_day = next;
            },
            None => {},
        }
    }

    /// Selects the previous day, unless the selected day is the first one.
    pub fn select_prev_day(&mut self)
        ensures
            final(self)@ == (AppStateView { selected_day: final(self)@.selected_day, ..old(self)@ }),
            step_day(old(self)@.selected_day, prev_date(old(self)@.selected_day@), final(self)@.selected_day),
    {
        match self.selected_day.pred_opt() {
            Some(prev) => {
                self.selected_day = prev;
            },
            None => {},
        }
    }

    /// Selects the same day of the next month (clamped to its length), unless
    /// that month cannot be reached.
    pub fn select_next_month(&mut self)
        ensures
            final(self)@ == (AppStateView { selected_day: final(self)@.selected_day, ..old(self)@ }),
            match shift_month_spec(old(self)@.selected_day@, 1) {
                Ok(v) => final(self)@.selected_day@ == v,
                Err(_) => final(self)@.selected_day == old(self)@.selected_day,
            },
    {
        match shift_month_date(self.selected_day, 1) {
            Ok(next) => {
                self.selected_day = next;
            },
            Err(_) => {},
        }
    }

    /// Selects the same day of the previous month (clamped to its length),
    /// unless that month cannot be reached.
    pub fn select_prev_month(&mut self)
        ensures
            final(self)@ == (AppStateView { selected_day: final(self)@.selected_day, ..old(self)@ }),
            match shift_month_spec(old(self)@.selected_day@, -1) {
                Ok(v) => final(self)@.selected_day@ == v,
                Err(_) => final(self)@.selected_day == old(self)@.selected_day,
            },
    {
        match shift_month_date(self.selected_day, -1) {
            Ok(prev) => {
                self.selected_day = prev;
            },
            Err(_) => {},
        }
    }

    /// All tasks, in order.
    pub fn todos(&self) -> (r: &[Todo])
        ensures
            todo_views(r@) == self@.todos,
    {
        self.todos.as_slice()
    }

    /// The first task with `id`, if any.
    pub fn todo(&self, id: TodoId) -> (r: Option<&Todo>)
        ensures
            index_of(self@.todos, id) matches Some(i) ==> r matches Some(t) && t@ == self@.todos[i],
            index_of(self@.todos, id) is None ==> r is None,
    {
        match self.position(id) {
            Some(i) => Some(&self.todos[i]),
            None => None,
        }
    }
}

/// Undoing a move puts the task back on its day: the tasks are as before.
pub proof fn law_undo_move_restores(s: Seq<TodoView>, id: TodoId, day: Date)
    requires
        index_of(s, id) is Some,
    ensures
        undo_spec(
            moved(s, id, day),
            UndoView::Move { id, previous_day: s[index_of(s, id)->0].assigned_day },
        ) == Some(s),
{
    let i = index_of(s, id)->0;
    let after = moved(s, id, day);
    assert forall|k: int| 0 <= k < s.len() implies #[trigger] after[k].id == s[k].id by {}
    lemma_index_of_same_ids(after, s, id);
    assert(moved(after, id, s[i].assigned_day) =~= s);
}

/// Undoing a toggle restores the status and completion instant, whatever
/// instant the toggle stamped: the tasks are as before.
pub proof fn law_undo_toggle_restores(s: Seq<TodoView>, id: TodoId, stamped: Option<Timestamp>)
    requires
        index_of(s, id) is Some,
    ensures
        ({
            let i = index_of(s, id)->0;
            undo_spec(
                s.update(i, with_status(s[i], toggled(s[i].status), stamped)),
                UndoView::Toggle {
                    id,
                    previous_status: s[i].status,
                    previous_completed_at: s[i].completed_at,
                },
            ) == Some(s)
        }),
{
    let i = index_of(s, id)->0;
    let after = s.update(i, with_status(s[i], toggled(s[i].status), stamped));
    assert forall|k: int| 0 <= k < s.len() implies #[trigger] after[k].id == s[k].id by {}
    lemma_index_of_same_ids(after, s, id);
    assert(after.update(i, with_status(after[i], s[i].status, s[i].completed_at)) =~= s);
}

/// Undoing a status change restores the previous status and completion
/// instant: the tasks are as before.
pub proof fn law_undo_set_status_restores(
    s: Seq<TodoView>,
    id: TodoId,
    status: Status,
    stamped: Option<Timestamp>,
)
    requires
        index_of(s, id) is Some,
    ensures
        ({
            let i = index_of(s, id)->0;
            undo_spec(
                s.update(i, with_status(s[i], status, stamped)),
                UndoView::SetStatus {
                    id,
                    previous_status: s[i].status,
                    previous_completed_at: s[i].completed_at,
                },
            ) == Some(s)
        }),
{
    let i = index_of(s, id)->0;
    let after = s.update(i, with_status(s[i], status, stamped));
    assert forall|k: int| 0 <= k < s.len() implies #[trigger] after[k].id == s[k].id by {}
    lemma_index_of_same_ids(after, s, id);
    assert(after.update(i, with_status(after[i], s[i].status, s[i].completed_at)) =~= s);
}

/// Undoing a deletion puts the task back at its old position: the tasks are
/// as before.
pub proof fn law_undo_delete_restores(s: Seq<TodoView>, id: TodoId)
    requires
        index_of(s, id) is Some,
    ensures
        ({
            let i = index_of(s, id)->0;
            undo_spec(s.remove(i), UndoView::Delete { todo: s[i], index: i }) == Some(s)
        }),
{
    let i = index_of(s, id)->0;
    assert(s.remove(i).insert(i, s[i]) =~= s);
}

/// A task with identifier `id` is found exactly when some task carries it;
/// every change by identifier succeeds or fails on this.
pub proof fn law_lookup_decides(s: Seq<TodoView>, id: TodoId)
    ensures
        index_of(s, id) is Some <==> exists|k: int| 0 <= k < s.len() && s[k].id == id,
    decreases s.len(),
{
    if exists|k: int| 0 <= k < s.len() && s[k].id == id {
        let k = choose|k: int| 0 <= k < s.len() && s[k].id == id;
        lemma_first_exists(s, id, k);
    } else {
        assert(!exists|i: int| first_with_id(s, id, i));
    }
}

/// Below any position holding `id` there is a first one.
proof fn lemma_first_exists(s: Seq<TodoView>, id: TodoId, k: int)
    requires
        0 <= k < s.len(),
        s[k].id == id,
    ensures
        exists|i: int| first_with_id(s, id, i),
    decreases k,
{
    if forall|j: int| 0 <= j < k ==> s[j].id != id {
        assert(first_with_id(s, id, k));
    } else {
        let j = choose|j: int| 0 <= j < k && s[j].id == id;
        lemma_first_exists(s, id, j);
    }
}

} // verus!
