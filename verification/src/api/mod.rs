//! Client for the diary.e-schools.by API: endpoints, authentication and the
//! entities it exchanges.
pub mod auth;
pub mod blocking;
pub mod endpoints;
pub mod entities;
pub mod login;
