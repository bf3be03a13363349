use vstd::prelude::*;

verus! {

/// A named unit of work with a binary open/complete status.
pub struct Task {
    pub name: String,
    pub status: bool,
}

impl View for Task {
    type V = (Seq<char>, bool);

    open spec fn view(&self) -> (Seq<char>, bool) {
        (self.name@, self.status)
    }
}

impl Task {
    /// A fresh task carries the given name and starts open.
    pub fn new(name: String) -> (t: Task)
        ensures
            t@ == (name@, false),
    {
        Task { name, status: false }
    }
}

/// Why a store or validation operation failed.
#[derive(Clone, Copy, Debug, PartialEq, Eq, Structural)]
pub enum TaskError {
    /// The store could not be opened or its schema could not be set up.
    StorageUnavailable,
    /// A read against the store failed.
    StorageReadError,
    /// A write against the store failed.
    StorageWriteError,
    /// The task name was empty after trimming whitespace.
    ValidationError,
}

} // verus!
