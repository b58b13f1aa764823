//! Commands over a pooled PostgreSQL connection: open the pool once, create
//! tables, list tables and list a table's columns.
//!
//! The library decides and computes; it never waits. A caller asks it what to
//! do next, does the waiting (acquiring a client, running a statement) and
//! hands the outcome back.

pub mod column;
pub mod command;
pub mod config;
pub mod error;
pub mod greeting;
pub mod pool;
pub mod sql;
