//! Key-value stores that are tables of a SQLite database.
//!
//! A [`store`] turns each operation into a command. Commands are worked off
//! one at a time: an [`exchange`] runs the statements of a command in a
//! transaction and comes up with a response, which the store turns into the
//! result of the operation.

pub mod command;
pub mod database;
pub mod exchange;
pub mod exchange_laws;
pub mod key;
pub mod statement;
pub mod store;
pub mod store_laws;
pub mod task;
