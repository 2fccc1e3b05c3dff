//! The screens shown once a session exists.

pub mod app_screen;
