//! Decisions behind the reusable widgets.

pub mod input;
