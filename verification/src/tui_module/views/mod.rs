//! Views that stage files.
pub mod status_view;
