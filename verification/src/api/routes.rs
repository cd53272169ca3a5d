//! The routes of the API, as decisions.

pub mod auth;
