//! What can store a record.

use crate::entry::{LogEntry, StorageError};
use vstd::prelude::*;

verus! {

/// A backend that stores records. A sink depends on this alone, so a
/// database, a file or a list in memory can stand behind it.
pub trait Connect {
    /// Stores one record, or reports why it could not.
    fn log(&self, entry: LogEntry) -> (stored: Result<(), StorageError>)
        requires
            entry.structured.wf(),
    ;
}

} // verus!
