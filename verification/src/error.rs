use vstd::prelude::*;

verus! {

/// The two ways an operation on a container file can fail.
///
/// `IoError` stands for an underlying read failure (including a header
/// shorter than the fixed 44 bytes); `MalformedContainer` is a header
/// whose magic markers are wrong.  Neither is retried: the failing
/// operation returns the error at once and produces no partial result.
#[derive(Debug, Clone, Copy, PartialEq, Eq, Structural)]
pub enum WavError {
    IoError,
    MalformedContainer,
}

} // verus!
