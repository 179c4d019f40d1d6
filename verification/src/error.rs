//! The ways in which a lock can be misused.
use vstd::prelude::*;

verus! {

/// A misuse of a lock.  Each one is a programming defect, not a condition to
/// retry: a caller is expected to stop on it.
#[must_use]
#[derive(Debug, Clone, Copy, PartialEq, Eq, Structural)]
pub enum LockError {
    /// The lock already held a value when it was to be initialized.
    Reinitialized,
    /// The lock held no value yet when its value was to be accessed.
    Uninitialized,
    /// The lock's value was already being accessed: an access was started
    /// from inside the callback of another access to the same lock.
    Reentered,
}

impl LockError {
    /// The text that names this misuse in a diagnostic.
    pub open spec fn message_spec(self) -> Seq<char> {
        match self {
            LockError::Reinitialized => "lock reinitialized"@,
            LockError::Uninitialized => "empty lock"@,
            LockError::Reentered => "lock reentered"@,
        }
    }

    /// Returns the diagnostic text for this misuse.
    pub fn message(&self) -> (text: &'static str)
        ensures
            text@ == self.message_spec(),
    {
        match self {
            LockError::Reinitialized => "lock reinitialized",
            LockError::Uninitialized => "empty lock",
            LockError::Reentered => "lock reentered",
        }
    }
}

} // verus!
