//! Verified core of an e-schools.by school-diary client.
pub mod api;
pub mod codec;
pub mod entities;
pub mod network;
pub mod pages;
pub mod text;
pub mod features;
pub mod i18n;
pub mod locale;
pub mod model;
