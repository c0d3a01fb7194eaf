//! The table that rows are stored in, and the statements that use it.
//!
//! The columns stand in the order of the fields of a [`Row`](crate::Row).

use vstd::prelude::*;

verus! {

/// Creates the table unless it exists already, so running it again changes
/// nothing.
pub const SQL_SCHEMA: &'static str =
    "CREATE TABLE IF NOT EXISTS logs_v0 (time TEXT NOT NULL, level TEXT NOT NULL, module TEXT, file TEXT, line INTEGER, message TEXT NOT NULL, structured TEXT NOT NULL)";

/// Stores one row. The seven parameters are the fields of the row, in order.
pub const SQL_INSERT: &'static str =
    "INSERT INTO logs_v0 (time, level, module, file, line, message, structured) VALUES (?1, ?2, ?3, ?4, ?5, ?6, ?7)";

/// Reads every row, the columns in the order of the fields of a row.
pub const SQL_SELECT: &'static str =
    "SELECT time, level, module, file, line, message, structured FROM logs_v0";

} // verus!
