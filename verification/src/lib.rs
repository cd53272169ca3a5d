//! Wallet-based authentication and progression rules for the Vectra exchange backend.

pub mod api;
pub mod auth;
pub mod bindings;
pub mod db;
pub mod game;
pub mod hex;
pub mod storage;
pub mod text;
pub mod xp;
