//! Merge several SQLite database files that share one schema into a single
//! destination file.
//!
//! The destination is seeded from the first source; every remaining source is
//! then streamed through a batched row transfer.  Tables with a single
//! integer primary key have that key rewritten from a strictly increasing
//! counter so no two transferred rows collide; all other tables are copied
//! verbatim.

pub mod batch;
pub mod cmd;
pub mod db;
pub mod schema;
pub mod sql;
pub mod sqlite;
pub mod transfer;
pub mod values;
