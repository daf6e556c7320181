//! Dayroll: a day-first task manager. This crate holds the task model, the
//! calendar arithmetic, quick-add parsing, search ranking, undo history, the
//! keyboard state machines of the interface and the content of its screens,
//! each with its contract.
pub mod date;
pub mod text;
pub mod model;
pub mod app;
pub mod theme;
pub mod storage;
pub mod ui_state;
pub mod event_handler;
pub mod main_view;
pub mod markdown;
pub mod screen;
