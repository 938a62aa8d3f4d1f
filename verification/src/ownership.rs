//! The ownership markers: who holds the bytes behind a blob, a face or a font.
//!
//! A marker is the type parameter of a resource and also carries the storage
//! itself, so the three memory regimes (heap-owned, share-counted, borrowed)
//! are told apart at compile time and released by the ordinary rules of the
//! language.

use crate::sealed::Sealed;
use std::sync::Arc;
use vstd::prelude::*;
use vstd::slice::slice_to_vec;

verus! {

/// Where owned bytes live: alone on the heap, or in a share-counted region.
enum OwnedBytes {
    Heap(Vec<u8>),
    Shared(Arc<Vec<u8>>),
}

/// Marks data that the resource owns, alone or together with other owners.
/// The bytes are released when the last owner is dropped.
pub struct Owned {
    store: OwnedBytes,
}

/// Marks data that is borrowed, read-only, for the lifetime `'a`.
pub struct Borrowed<'a> {
    data: &'a [u8],
}

/// Marks data that is borrowed for the lifetime `'a` with the right to write.
pub struct BorrowedMut<'a> {
    data: &'a mut [u8],
}

/// The markers under which data can have several holders: `Owned` and
/// `Borrowed`. Faces and fonts exist under these only.
pub trait Ownership: Sealed + Sized {
    /// A second holder of the same bytes. Bytes that were held exclusively
    /// are copied, so the new holder never aliases writable memory; shared or
    /// borrowed bytes are not copied.
    fn share(&self) -> (other: Self)
        ensures
            other.bytes() == self.bytes(),
            !other.exclusive(),
    ;

    /// Gives up exclusive access, so that `share` no longer copies.
    fn make_shared(&mut self)
        ensures
            final(self).bytes() == old(self).bytes(),
            !final(self).exclusive(),
    ;
}

/// Another pointer to the same share-counted value, by `Arc::clone`: the
/// count goes up, and what the result reaches is what `shared` reaches.
#[verifier::external_body]
pub(crate) fn arc_share<T>(shared: &Arc<T>) -> (other: Arc<T>)
    ensures
        other == *shared,
{
    Arc::clone(shared)
}

impl Owned {
    /// The marker that holds a byte sequence alone.
    pub closed spec fn heap(data: Vec<u8>) -> Owned {
        Owned { store: OwnedBytes::Heap(data) }
    }

    /// The marker that holds a share-counted byte sequence with others.
    pub closed spec fn shared(data: Arc<Vec<u8>>) -> Owned {
        Owned { store: OwnedBytes::Shared(data) }
    }

    /// What the two markers hold, and which of them holds it alone.
    pub(crate) proof fn lemma_markers(data: Vec<u8>, counted: Arc<Vec<u8>>)
        ensures
            Self::heap(data).bytes() == data@,
            Self::heap(data).exclusive(),
            Self::shared(counted).bytes() == counted@,
            !Self::shared(counted).exclusive(),
    {
    }

    /// Takes over a heap-allocated byte sequence. The holder is exclusive.
    pub(crate) fn from_vec(data: Vec<u8>) -> (owned: Self)
        ensures
            owned == Self::heap(data),
            owned.bytes() == data@,
            owned.exclusive(),
    {
        Owned { store: OwnedBytes::Heap(data) }
    }

    /// Joins the owners of a share-counted byte sequence.
    pub(crate) fn from_arc(data: Arc<Vec<u8>>) -> (owned: Self)
        ensures
            owned == Self::shared(data),
            owned.bytes() == data@,
            !owned.exclusive(),
    {
        Owned { store: OwnedBytes::Shared(data) }
    }

    /// Borrows the bytes for writing, where they are held exclusively.
    pub(crate) fn as_mut_slice(&mut self) -> (slice: Option<&mut [u8]>)
        ensures
            slice is Some <==> old(self).exclusive(),
            match slice {
                Some(s) => s@ == old(self).bytes() && final(self).bytes() == final(s)@
                    && final(self).exclusive(),
                None => *final(self) == *old(self),
            },
    {
        match &mut self.store {
            OwnedBytes::Heap(v) => Some(v.as_mut_slice()),
            OwnedBytes::Shared(_) => None,
        }
    }
}

impl Sealed for Owned {
    closed spec fn bytes(&self) -> Seq<u8> {
        match self.store {
            OwnedBytes::Heap(v) => v@,
            OwnedBytes::Shared(a) => a@,
        }
    }

    closed spec fn exclusive(&self) -> bool {
        self.store is Heap
    }

    fn as_slice(&self) -> (slice: &[u8]) {
        match &self.store {
            OwnedBytes::Heap(v) => v.as_slice(),
            OwnedBytes::Shared(a) => a.as_slice(),
        }
    }
}

impl Ownership for Owned {
    fn share(&self) -> (other: Self) {
        match &self.store {
            OwnedBytes::Heap(v) => Owned {
                store: OwnedBytes::Shared(Arc::new(slice_to_vec(v.as_slice()))),
            },
            OwnedBytes::Shared(a) => Owned { store: OwnedBytes::Shared(arc_share(a)) },
        }
    }

    fn make_shared(&mut self) {
        let mut store = OwnedBytes::Heap(Vec::new());
        std::mem::swap(&mut self.store, &mut store);
        self.store = match store {
            OwnedBytes::Heap(v) => OwnedBytes::Shared(Arc::new(v)),
            OwnedBytes::Shared(a) => OwnedBytes::Shared(a),
        };
    }
}

impl<'a> Borrowed<'a> {
    /// The marker that borrows a byte slice.
    pub closed spec fn of(data: &'a [u8]) -> Borrowed<'a> {
        Borrowed { data }
    }

    /// What the marker holds, with others.
    pub(crate) proof fn lemma_marker(data: &'a [u8])
        ensures
            Self::of(data).bytes() == data@,
            !Self::of(data).exclusive(),
    {
    }

    /// Borrows a byte slice, read-only.
    pub(crate) fn new(data: &'a [u8]) -> (borrowed: Self)
        ensures
            borrowed == Self::of(data),
            borrowed.bytes() == data@,
            !borrowed.exclusive(),
    {
        Borrowed { data }
    }
}

impl<'a> Sealed for Borrowed<'a> {
    closed spec fn bytes(&self) -> Seq<u8> {
        self.data@
    }

    closed spec fn exclusive(&self) -> bool {
        false
    }

    fn as_slice(&self) -> (slice: &[u8]) {
        self.data
    }
}

impl<'a> Ownership for Borrowed<'a> {
    fn share(&self) -> (other: Self) {
        Borrowed { data: self.data }
    }

    fn make_shared(&mut self) {
    }
}

impl<'a> BorrowedMut<'a> {
    /// The borrow that the marker holds. Its final value is what the lender
    /// finds when the borrow ends.
    pub closed spec fn referent(self) -> &'a mut [u8] {
        self.data
    }

    /// Borrows a byte slice with the right to write. The rules of borrowing see
    /// to it that nobody else reaches the slice for the lifetime `'a`.
    pub(crate) fn new(data: &'a mut [u8]) -> (borrowed: Self)
        ensures
            borrowed.bytes() == old(data)@,
            final(borrowed.referent())@ == final(data)@,
            borrowed.exclusive(),
    {
        BorrowedMut { data }
    }

    /// Borrows the bytes for writing. What is written reaches the lender.
    pub(crate) fn as_mut_slice(&mut self) -> (slice: &mut [u8])
        ensures
            slice@ == old(self).bytes(),
            final(self).bytes() == final(slice)@,
            final(final(self).referent())@ == final(old(self).referent())@,
            final(self).exclusive(),
    {
        &mut *self.data
    }

    /// When the borrow has ended, the lender holds the bytes as the marker
    /// last saw them.
    pub(crate) proof fn lemma_released(self)
        requires
            has_resolved(self),
        ensures
            final(self.referent())@ == self.bytes(),
    {
    }
}

impl<'a> Sealed for BorrowedMut<'a> {
    closed spec fn bytes(&self) -> Seq<u8> {
        (*self.data)@
    }

    closed spec fn exclusive(&self) -> bool {
        true
    }

    fn as_slice(&self) -> (slice: &[u8]) {
        &*self.data
    }
}

} // verus!
