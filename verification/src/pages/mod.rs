//! What the pages show, computed from the loaded data.
pub mod diary;
pub mod login;
pub mod pin_lock;
pub mod schedule;
pub mod teachers;
