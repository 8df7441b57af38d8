//! Domain entities shared by the pages.
pub mod schedule;
