//! The trait that closes the set of ownership markers.

use vstd::prelude::*;

verus! {

/// What every ownership marker offers: read access to the bytes it stands
/// for. Only the markers of this crate implement it.
pub trait Sealed {
    /// The bytes that the marker reaches.
    spec fn bytes(&self) -> Seq<u8>;

    /// Whether nobody else reaches the bytes, so that they may be written.
    spec fn exclusive(&self) -> bool;

    /// Borrows the bytes.
    fn as_slice(&self) -> (slice: &[u8])
        ensures
            slice@ == self.bytes(),
    ;
}

} // verus!
