//! The task record and its enumerations.
use vstd::prelude::*;
use crate::date::{Date, Time};
use crate::text::{is_blank, to_chars, trim};

verus! {

#[derive(Clone, Copy, Debug, PartialEq, Eq, Structural, Hash)]
pub enum Priority {
    High,
    Medium,
    Low,
}

#[derive(Clone, Copy, Debug, PartialEq, Eq, Structural, Hash)]
pub enum Area {
    Projects,
    Home,
    Admin,
    Personal,
    Waiting,
    Inbox,
}

impl Default for Area {
    fn default() -> (r: Area)
        ensures
            r == Area::Inbox,
    {
        Area::Inbox
    }
}

/// Workflow state of a task. `Backlog` is the pending state.
#[derive(Clone, Copy, Debug, PartialEq, Eq, Structural, Hash)]
pub enum Status {
    Backlog,
    Doing,
    Blocked,
    Done,
}

impl Status {
    /// The pending state, under the name that the stored files and the
    /// documentation use.
    #[allow(non_upper_case_globals)]
    pub const Pending: Status = Status::Backlog;
}

/// Identifier of a task: the 128 bits of a version-4 UUID.
#[derive(Clone, Copy, Debug, PartialEq, Eq, Structural, Hash)]
pub struct TodoId(pub u128);

impl TodoId {
    /// The all-zero identifier, which no generated task receives in practice.
    pub fn nil() -> (r: TodoId)
        ensures
            r == TodoId(0),
    {
        TodoId(0)
    }
}

/// A UTC instant: seconds since the Unix epoch and the nanoseconds past them.
#[derive(Clone, Copy, Debug, PartialEq, Eq, Structural, Hash)]
pub struct Timestamp {
    pub secs: i64,
    pub nanos: u32,
}

/// Calls chrono's `Utc::now`. Nothing is claimed of the instant it reads.
#[verifier::external_body]
pub(crate) fn now_utc() -> (r: Timestamp) {
    let now = chrono::Utc::now();
    Timestamp { secs: now.timestamp(), nanos: now.timestamp_subsec_nanos() }
}

/// Calls uuid's `Uuid::new_v4`. Nothing is claimed of the random bits.
#[verifier::external_body]
pub(crate) fn fresh_todo_id() -> (r: TodoId) {
    TodoId(uuid::Uuid::new_v4().as_u128())
}

#[derive(Clone, Debug)]
pub struct Todo {
    pub id: TodoId,
    pub title: String,
    pub area: Area,
    pub status: Status,
    pub priority: Priority,
    pub assigned_day: Date,
    pub created_at: Timestamp,
    pub completed_at: Option<Timestamp>,
    /// Markdown notes.
    pub description: Option<String>,
    pub due_time: Option<Time>,
}

/// The value of a task, its texts taken as character sequences.
pub struct TodoView {
    pub id: TodoId,
    pub title: Seq<char>,
    pub area: Area,
    pub status: Status,
    pub priority: Priority,
    pub assigned_day: Date,
    pub created_at: Timestamp,
    pub completed_at: Option<Timestamp>,
    pub description: Option<Seq<char>>,
    pub due_time: Option<Time>,
}

pub open spec fn text_view(o: Option<String>) -> Option<Seq<char>> {
    match o {
        Some(s) => Some(s@),
        None => None,
    }
}

impl View for Todo {
    type V = TodoView;

    open spec fn view(&self) -> TodoView {
        TodoView {
            id: self.id,
            title: self.title@,
            area: self.area,
            status: self.status,
            priority: self.priority,
            assigned_day: self.assigned_day,
            created_at: self.created_at,
            completed_at: self.completed_at,
            description: text_view(self.description),
            due_time: self.due_time,
        }
    }
}

/// The values of a sequence of tasks.
pub open spec fn todo_views(todos: Seq<Todo>) -> Seq<TodoView> {
    todos.map_values(|t: Todo| t@)
}

/// A note that is blank counts as no note.
pub open spec fn kept_note(text: Seq<char>) -> Option<Seq<char>> {
    if trim(text).len() == 0 {
        None
    } else {
        Some(text)
    }
}

/// A copy of an optional text.
pub fn copy_text(o: &Option<String>) -> (r: Option<String>)
    ensures
        text_view(r) == text_view(*o),
{
    match o {
        Some(s) => Some(s.clone()),
        None => None,
    }
}

impl Todo {
    /// A new pending task in the inbox, with a fresh identifier and the
    /// current instant as its creation time.
    pub fn new(title: &str, priority: Priority, assigned_day: Date) -> (r: Todo)
        ensures
            r@.title == title@,
            r@.area == Area::Inbox,
            r@.status == Status::Backlog,
            r@.priority == priority,
            r@.assigned_day == assigned_day,
            r@.completed_at is None,
            r@.description is None,
            r@.due_time is None,
    {
        Todo::new_with_identity(fresh_todo_id(), now_utc(), title, priority, assigned_day)
    }

    /// A new pending task in the inbox with the given identifier and
    /// creation instant.
    pub fn new_with_identity(
        id: TodoId,
        created_at: Timestamp,
        title: &str,
        priority: Priority,
        assigned_day: Date,
    ) -> (r: Todo)
        ensures
            r@ == (TodoView {
                id,
                title: title@,
                area: Area::Inbox,
                status: Status::Backlog,
                priority,
                assigned_day,
                created_at,
                completed_at: None,
                description: None,
                due_time: None,
            }),
    {
        Todo {
            id,
            title: title.to_owned(),
            area: Area::default(),
            status: Status::Backlog,
            priority,
            assigned_day,
            created_at,
            completed_at: None,
            description: None,
            due_time: None,
        }
    }

    /// The task with `desc` as its note, or with no note when `desc` is blank.
    pub fn with_description(self, desc: String) -> (r: Todo)
        ensures
            r@ == (TodoView { description: kept_note(desc@), ..self@ }),
    {
        let mut todo = self;
        let chars = to_chars(desc.as_str());
        if is_blank(chars.as_slice()) {
            todo.description = None;
        } else {
            todo.description = Some(desc);
        }
        todo
    }

    pub fn with_area(self, area: Area) -> (r: Todo)
        ensures
            r@ == (TodoView { area, ..self@ }),
    {
        let mut todo = self;
        todo.area = area;
        todo
    }

    pub fn with_due_time(self, due_time: Option<Time>) -> (r: Todo)
        ensures
            r@ == (TodoView { due_time, ..self@ }),
    {
        let mut todo = self;
        todo.due_time = due_time;
        todo
    }

    /// A field-for-field copy.
    pub fn duplicate(&self) -> (r: Todo)
        ensures
            r@ == self@,
    {
        Todo {
            id: self.id,
            title: self.title.clone(),
            area: self.area,
            status: self.status,
            priority: self.priority,
            assigned_day: self.assigned_day,
            created_at: self.created_at,
            completed_at: self.completed_at,
            description: copy_text(&self.description),
            due_time: self.due_time,
        }
    }
}

} // verus!
