use vstd::prelude::*;

verus! {

/// Why a byte-buffer consumer could not build a value from the bytes it was
/// given.
#[derive(Debug, Clone, PartialEq, Eq)]
pub enum ConstructError {
    /// The buffer is too short, or structurally invalid, for the target type.
    /// Recoverable: the caller may retry with a different buffer.
    MalformedInput,
    /// Any other construction failure, with a message. Not recoverable.
    Other(String),
}

} // verus!
