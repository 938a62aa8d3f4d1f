//! Blobs: byte regions handed to the shaping engine, under one of three
//! ownership regimes.

use crate::ownership::{Borrowed, BorrowedMut, Owned, Ownership};
use crate::sealed::Sealed;
use std::sync::Arc;
use vstd::prelude::*;
use vstd::slice::slice_to_vec;
use vstd::std_specs::convert::FromSpecImpl;

verus! {

/// Why a blob refused to hand out its bytes for writing.
#[derive(Debug, Copy, Clone, PartialEq, Eq, Structural)]
pub enum WriteError {
    /// The blob was made immutable.
    Immutable,
    /// The bytes have, or may have, other holders.
    Shared,
}

/// A chunk of binary data, most often the bytes of a font file.
///
/// The type parameter is the ownership marker. A blob can be made immutable,
/// and stays so; its length never changes.
pub struct Blob<T> {
    data: T,
    immutable: bool,
}

impl<T: Sealed> View for Blob<T> {
    type V = Seq<u8>;

    /// The bytes of the blob.
    closed spec fn view(&self) -> Seq<u8> {
        self.data.bytes()
    }
}

impl<T: Sealed> std::ops::Deref for Blob<T> {
    type Target = [u8];

    /// Borrows the bytes of the blob.
    fn deref(&self) -> (bytes: &[u8])
        ensures
            bytes@ == self@,
    {
        self.data.as_slice()
    }
}

impl Blob<Owned> {
    /// The blob that `from_vec` makes.
    pub closed spec fn of_vec(data: Vec<u8>) -> Self {
        Blob { data: Owned::heap(data), immutable: false }
    }

    /// The blob that `from_arc` makes.
    pub closed spec fn of_arc(data: Arc<Vec<u8>>) -> Self {
        Blob { data: Owned::shared(data), immutable: false }
    }

    /// A blob made of a byte sequence has its bytes and is mutable; it holds
    /// them alone when it took them over, and with others when they are
    /// share-counted.
    pub proof fn lemma_of_owned(data: Vec<u8>, counted: Arc<Vec<u8>>)
        ensures
            Self::of_vec(data)@ == data@,
            !Self::of_vec(data).immutable(),
            Self::of_vec(data).exclusive(),
            Self::of_arc(counted)@ == counted@,
            !Self::of_arc(counted).immutable(),
            !Self::of_arc(counted).exclusive(),
    {
        Owned::lemma_markers(data, counted);
    }

    /// Wraps a share-counted byte sequence without copying it. The blob is
    /// one more owner; the bytes are released with the last one.
    pub fn from_arc(data: Arc<Vec<u8>>) -> (blob: Self)
        ensures
            blob == Self::of_arc(data),
            blob@ == data@,
            !blob.immutable(),
            !blob.exclusive(),
    {
        Blob { data: Owned::from_arc(data), immutable: false }
    }

    /// Takes ownership of a byte sequence. The blob is its only holder.
    pub fn from_vec(data: Vec<u8>) -> (blob: Self)
        ensures
            blob == Self::of_vec(data),
            blob@ == data@,
            !blob.immutable(),
            blob.exclusive(),
    {
        Blob { data: Owned::from_vec(data), immutable: false }
    }

    /// Hands out the bytes for writing. This succeeds exactly when the blob
    /// is neither immutable nor shared; a refusal changes nothing. The blob
    /// is immutable afterwards if and only if it was before.
    pub fn data_mut(&mut self) -> (access: Result<&mut [u8], WriteError>)
        ensures
            access is Ok <==> !old(self).immutable() && old(self).exclusive(),
            final(self).immutable() == old(self).immutable(),
            match access {
                Ok(bytes) => {
                    &&& bytes@ == old(self)@
                    &&& final(self)@ == final(bytes)@
                    &&& !final(self).immutable()
                    &&& final(self).exclusive()
                },
                Err(e) => {
                    &&& *final(self) == *old(self)
                    &&& e == if old(self).immutable() {
                        WriteError::Immutable
                    } else {
                        WriteError::Shared
                    }
                },
            },
    {
        if self.immutable {
            return Err(WriteError::Immutable);
        }
        match self.data.as_mut_slice() {
            Some(bytes) => Ok(bytes),
            None => Err(WriteError::Shared),
        }
    }
}

impl<'a> Blob<Borrowed<'a>> {
    /// The blob that `from_ref` makes.
    pub closed spec fn of_ref(data: &'a [u8]) -> Self {
        Blob { data: Borrowed::of(data), immutable: false }
    }

    /// A blob made of a borrowed slice has its bytes, is mutable and not
    /// their only holder.
    pub proof fn lemma_of_ref(data: &'a [u8])
        ensures
            Self::of_ref(data)@ == data@,
            !Self::of_ref(data).immutable(),
            !Self::of_ref(data).exclusive(),
    {
        Borrowed::lemma_marker(data);
    }

    /// Borrows a byte slice without copying it. The blob is read-only and
    /// cannot outlive the slice.
    pub fn from_ref(data: &'a [u8]) -> (blob: Self)
        ensures
            blob == Self::of_ref(data),
            blob@ == data@,
            !blob.immutable(),
            !blob.exclusive(),
    {
        Blob { data: Borrowed::new(data), immutable: false }
    }
}

impl<'a> Blob<BorrowedMut<'a>> {
    /// The borrow that the blob holds. Its final value is what the lender
    /// finds when the blob is gone.
    pub closed spec fn referent(self) -> &'a mut [u8] {
        self.data.referent()
    }

    /// Borrows a byte slice, without copying it, with the right to write
    /// through the blob. Nobody else reaches the slice while the blob lives.
    pub fn from_mut(data: &'a mut [u8]) -> (blob: Self)
        ensures
            blob@ == old(data)@,
            final(blob.referent())@ == final(data)@,
            !blob.immutable(),
            blob.exclusive(),
    {
        Blob { data: BorrowedMut::new(data), immutable: false }
    }

    /// Hands out the bytes for writing. This succeeds exactly when the blob
    /// is not immutable; what is written reaches the lender. A refusal
    /// changes nothing. The blob is immutable afterwards if and only if it
    /// was before.
    pub fn data_mut(&mut self) -> (access: Result<&mut [u8], WriteError>)
        ensures
            access is Ok <==> !old(self).immutable(),
            final(self).immutable() == old(self).immutable(),
            match access {
                Ok(bytes) => {
                    &&& bytes@ == old(self)@
                    &&& final(self)@ == final(bytes)@
                    &&& final(final(self).referent())@ == final(old(self).referent())@
                    &&& !final(self).immutable()
                    &&& final(self).exclusive()
                },
                Err(e) => *final(self) == *old(self) && e == WriteError::Immutable,
            },
    {
        if self.immutable {
            return Err(WriteError::Immutable);
        }
        Ok(self.data.as_mut_slice())
    }

    /// When the blob is gone, the lender holds the bytes as the blob last
    /// had them.
    pub proof fn lemma_released(self)
        requires
            has_resolved(self),
        ensures
            final(self.referent())@ == self@,
    {
        self.data.lemma_released();
    }

    /// Making the blob immutable does not touch the borrow.
    pub proof fn lemma_frozen_referent(self)
        ensures
            self.frozen().referent() == self.referent(),
    {
    }
}

impl<T: Sealed> Blob<T> {
    /// Whether the blob has been made immutable.
    pub closed spec fn immutable(&self) -> bool {
        self.immutable
    }

    /// Whether the blob is the only holder of its bytes.
    pub closed spec fn exclusive(&self) -> bool {
        self.data.exclusive()
    }

    /// The same blob, immutable.
    pub closed spec fn frozen(self) -> Self {
        Blob { data: self.data, immutable: true }
    }

    /// Returns the size of the blob in bytes.
    pub fn len(&self) -> (n: usize)
        ensures
            n == self@.len(),
    {
        self.data.as_slice().len()
    }

    /// Returns true if the length is zero.
    pub fn is_empty(&self) -> (empty: bool)
        ensures
            empty == (self@.len() == 0),
    {
        self.len() == 0
    }

    /// Makes this blob immutable. Bytes and holders stay as they are, and
    /// a blob that was immutable is left unchanged.
    pub fn make_immutable(&mut self)
        ensures
            *final(self) == old(self).frozen(),
            final(self)@ == old(self)@,
            final(self).immutable(),
            final(self).exclusive() == old(self).exclusive(),
            old(self).immutable() ==> *final(self) == *old(self),
    {
        self.immutable = true;
    }

    /// Returns true if the blob is immutable.
    pub fn is_immutable(&self) -> (immutable: bool)
        ensures
            immutable == self.immutable(),
    {
        self.immutable
    }

    /// Borrows the bytes of the blob.
    pub fn as_bytes(&self) -> (bytes: &[u8])
        ensures
            bytes@ == self@,
    {
        self.data.as_slice()
    }

    /// Creates an owned blob, copying the bytes. The copy is mutable and has
    /// no other holder, whatever the state of this blob.
    pub fn to_owned(&self) -> (copy: Blob<Owned>)
        ensures
            copy@ == self@,
            !copy.immutable(),
            copy.exclusive(),
    {
        Blob::from_vec(slice_to_vec(self.data.as_slice()))
    }

    /// A frozen blob is immutable and has the bytes and the holders that it
    /// had; freezing it again changes nothing.
    pub proof fn lemma_frozen(self)
        ensures
            self.frozen()@ == self@,
            self.frozen().immutable(),
            self.frozen().exclusive() == self.exclusive(),
            self.frozen().frozen() == self.frozen(),
            self.immutable() ==> self.frozen() == self,
    {
    }
}

impl From<Vec<u8>> for Blob<Owned> {
    /// Takes ownership of a byte sequence, as `Blob::from_vec` does.
    fn from(data: Vec<u8>) -> (blob: Self) {
        Blob::from_vec(data)
    }
}

impl FromSpecImpl<Vec<u8>> for Blob<Owned> {
    open spec fn obeys_from_spec() -> bool {
        true
    }

    open spec fn from_spec(data: Vec<u8>) -> Self {
        Blob::of_vec(data)
    }
}

impl From<Arc<Vec<u8>>> for Blob<Owned> {
    /// Wraps a share-counted byte sequence, as `Blob::from_arc` does.
    fn from(data: Arc<Vec<u8>>) -> (blob: Self) {
        Blob::from_arc(data)
    }
}

impl FromSpecImpl<Arc<Vec<u8>>> for Blob<Owned> {
    open spec fn obeys_from_spec() -> bool {
        true
    }

    open spec fn from_spec(data: Arc<Vec<u8>>) -> Self {
        Blob::of_arc(data)
    }
}

impl<'a> From<&'a [u8]> for Blob<Borrowed<'a>> {
    /// Borrows a byte slice, as `Blob::from_ref` does.
    fn from(slice: &'a [u8]) -> (blob: Self) {
        Blob::from_ref(slice)
    }
}

impl<'a> FromSpecImpl<&'a [u8]> for Blob<Borrowed<'a>> {
    open spec fn obeys_from_spec() -> bool {
        true
    }

    open spec fn from_spec(slice: &'a [u8]) -> Self {
        Blob::of_ref(slice)
    }
}

impl<T: Ownership> Blob<T> {
    /// One more holder of the blob's bytes, for a face made from the blob.
    pub(crate) fn share_data(&self) -> (data: T)
        ensures
            data.bytes() == self@,
            !data.exclusive(),
    {
        self.data.share()
    }

    /// A second handle on the same bytes. The blob is made immutable first,
    /// so both handles read bytes that no holder can change; nothing is
    /// copied.
    pub fn clone(&mut self) -> (other: Self)
        ensures
            final(self)@ == old(self)@,
            final(self).immutable(),
            !final(self).exclusive(),
            other@ == old(self)@,
            other.immutable(),
            !other.exclusive(),
    {
        self.immutable = true;
        self.data.make_shared();
        Blob { data: self.data.share(), immutable: true }
    }
}

} // verus!
