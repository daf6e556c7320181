//! The dialogs that can cover the main view, and the keys that drive them.
use vstd::prelude::*;
use crate::app::Overlay;
use crate::date::Date;
use crate::model::{copy_text, text_view, Area, Priority, Status, TodoId};
use crate::theme::ThemeName;

verus! {

/// A key press, as the dialogs and the main view read it.
#[derive(Clone, Copy, Debug, PartialEq, Eq, Structural)]
pub enum Key {
    Char(char),
    Esc,
    Enter,
    Backspace,
    Tab,
    BackTab,
    Left,
    Right,
    Up,
    Down,
    /// A function key, by its number.
    F(u8),
    /// Any key the application does not read.
    Other,
}

/// The field of the task form that has the focus.
#[derive(Clone, Copy, Debug, PartialEq, Eq, Structural)]
pub enum TaskFormField {
    Title,
    Priority,
    Date,
    Description,
}

/// The form that adds a task (no identifier) or edits one.
#[derive(Clone, Debug)]
pub struct TaskFormState {
    pub todo_id: Option<TodoId>,
    pub title: String,
    pub priority: Priority,
    pub date: Date,
    /// Markdown notes.
    pub description: String,
    pub field: TaskFormField,
    pub error: Option<String>,
}

/// The value of a task form, its texts taken as character sequences.
pub struct TaskFormView {
    pub todo_id: Option<TodoId>,
    pub title: Seq<char>,
    pub priority: Priority,
    pub date: Date,
    pub description: Seq<char>,
    pub field: TaskFormField,
    pub error: Option<Seq<char>>,
}

impl View for TaskFormState {
    type V = TaskFormView;

    open spec fn view(&self) -> TaskFormView {
        TaskFormView {
            todo_id: self.todo_id,
            title: self.title@,
            priority: self.priority,
            date: self.date,
            description: self.description@,
            field: self.field,
            error: text_view(self.error),
        }
    }
}

impl TaskFormState {
    /// A copy of the form.
    pub fn duplicate(&self) -> (r: TaskFormState)
        ensures
            r@ == self@,
    {
        TaskFormState {
            todo_id: self.todo_id,
            title: self.title.clone(),
            priority: self.priority,
            date: self.date,
            description: self.description.clone(),
            field: self.field,
            error: copy_text(&self.error),
        }
    }
}

/// The dialog that picks a new day for a task.
#[derive(Clone, Debug)]
pub struct MoveDateState {
    pub todo_id: TodoId,
    pub date: Date,
}

/// The editor of a task's notes, over the form it came from.
#[derive(Clone, Debug)]
pub struct DescriptionEditorState {
    pub parent: TaskFormState,
    pub draft: String,
}

/// The dialog shown over the main view, if any.
#[derive(Clone, Debug)]
pub enum ModalState {
    /// No dialog is open.
    Closed,
    TaskForm(TaskFormState),
    MoveDate(MoveDateState),
    DescriptionEditor(DescriptionEditorState),
}

/// The value of a dialog.
pub enum ModalView {
    Closed,
    TaskForm(TaskFormView),
    MoveDate { todo_id: TodoId, date: Date },
    DescriptionEditor { parent: TaskFormView, draft: Seq<char> },
}

impl View for ModalState {
    type V = ModalView;

    open spec fn view(&self) -> ModalView {
        match self {
            ModalState::Closed => ModalView::Closed,
            ModalState::TaskForm(f) => ModalView::TaskForm(f@),
            ModalState::MoveDate(m) => ModalView::MoveDate { todo_id: m.todo_id, date: m.date },
            ModalState::DescriptionEditor(e) => ModalView::DescriptionEditor {
                parent: e.parent@,
                draft: e.draft@,
            },
        }
    }
}

/// What the main view keeps besides the tasks: the selected row, the task
/// whose notes are unfolded, the theme and the overlay.
#[derive(Clone, Copy, Debug, PartialEq, Eq, Structural)]
pub struct UiViewState {
    pub selected_index: usize,
    pub expanded_task: Option<TodoId>,
    pub theme_name: ThemeName,
    pub overlay: Overlay,
}

/// A row of the task board as the main view lists it.
#[derive(Clone, Debug)]
pub struct VisibleTodo {
    pub id: TodoId,
    pub label: String,
    pub description: Option<String>,
    pub area: Area,
    pub status: Status,
    pub priority: Priority,
}

} // verus!
