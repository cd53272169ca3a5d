//! What the sign-in protocol keeps: the rows of its tables, the tables held
//! in memory, and the exchanges run against them.

pub mod memory;
pub mod repo;
pub mod schema;
