//! Application features: credential storage, token renewal and diary data.
pub mod auth;
pub mod diary;
pub mod grade_checker;
pub mod secure;
pub mod sync;
