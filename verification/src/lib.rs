//! A verified persistence layer for a personal task list.
//!
//! The store keeps a single table of tasks in an embedded SQLite database,
//! reached through `rusqlite`. Every operation of the store — load, insert,
//! partial update, delete, and atomic replace — is a verified function whose
//! contract relates the table's contents before and after the call.

pub mod conn;
pub mod error;
pub mod laws;
pub mod model;
pub mod store;
pub mod task;

pub use error::StoreError;
pub use task::Task;
