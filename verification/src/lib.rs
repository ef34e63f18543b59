//! Core of an interactive terminal tool that lets a user browse, filter and
//! select gitignore templates from a remote catalog and write the merged
//! result to disk.
//!
//! This crate holds the verified heart of the tool: the catalog of template
//! names with their visibility and selection flags, the scrollable list
//! cursor, the filter box, the task bar, the two template panes, the modal
//! popups and the application state machine that routes every input event.
//! Terminal painting, network fetches and file writes live outside; they hand
//! the state machine plain values and carry out the effects it asks for.

pub mod api;
pub mod app;
pub mod catalog;
pub mod filter;
pub mod geom;
pub mod input;
pub mod list_state_wrapper;
pub mod matching;
pub mod save_option;
pub mod task_bar;
pub mod template_list;
pub mod text;
