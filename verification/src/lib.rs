//! The verified core of a terminal user interface for Git: the input state
//! machines of its views, the text they show, and the decisions that its Git
//! operations take between the calls into the repository.
pub mod keys;
pub mod panel;
pub mod text;
pub mod tui_module;
pub mod app;
pub mod help_view;
pub mod git_utils;
pub mod laws;
pub mod git_laws;
