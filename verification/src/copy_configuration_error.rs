use vstd::prelude::*;

verus! {

/// The error of a copy from a reader into a writer, preserving which side of
/// the copy failed: a write failure is never reported as a read failure, even
/// when a read would also have failed.
#[derive(Debug, PartialEq, Eq)]
pub enum CopyConfigurationError<R, W> {
    /// The read failed; the write was never attempted.
    ReadError(R),
    /// The read succeeded and the write of its value failed.
    WriteError(W),
}

} // verus!
