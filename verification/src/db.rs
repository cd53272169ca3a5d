//! The accounts of the exchange: their rows and the settings of the database.

pub mod config;
pub mod models;
pub mod queries;
