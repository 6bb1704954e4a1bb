use vstd::prelude::*;

use crate::error::ConstructError;

verus! {

/// A consumer of unstructured data: a type that can be built from the front
/// of a byte buffer.
///
/// Construction must be a pure, deterministic function of the bytes alone —
/// `construct_spec` names that function, and the executable `construct` is
/// required to agree with it — and the produced value must own its data, with
/// a lifetime independent of the buffer it was read from.
pub trait ArbInterop: Sized {
    /// The value (or error) this consumer derives from a byte buffer, as a
    /// pure function of the bytes.
    spec fn construct_spec(bytes: Seq<u8>) -> Result<Self, ConstructError>;

    /// Build a value from the front of `bytes`. Deterministic and
    /// side-effect-free; may be called repeatedly with different prefixes of
    /// one underlying buffer.
    fn construct(bytes: &[u8]) -> (r: Result<Self, ConstructError>)
        ensures
            r == Self::construct_spec(bytes@),
    ;

    /// An equal, independently owned copy of `self`.
    fn clone_value(&self) -> (r: Self)
        ensures
            r == *self,
    ;
}

} // verus!
