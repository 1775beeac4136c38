//! The views of the terminal interface.
pub mod branch_view;
pub mod commit_view;
pub mod log_view;
pub mod status_view;
pub mod views;
