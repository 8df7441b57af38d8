//! The application's own network layer: OAuth helpers, request paths and
//! the models of the diary API.
pub mod api;
pub mod auth;
pub mod client;
pub mod models;
pub mod oauth_web;
