//! The outcome of one non-blocking poll.
use vstd::prelude::*;

verus! {

/// What one poll of an in-flight operation reports.
pub enum Progress<T, E> {
    /// Not finished yet; poll again later.
    Pending,
    /// Finished with a value.
    Ready(T),
    /// Finished with an error.
    Failed(E),
}

} // verus!
