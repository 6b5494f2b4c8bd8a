//! Resource access layer for a task/user CRUD service: row construction,
//! identifier and timestamp stamping, and the repository operations over a
//! connection, all with verified contracts.

pub mod stamp;
pub mod table;
pub mod models;
pub mod ident;
pub mod connection;
pub mod tasks;
pub mod users;
pub mod laws;
