//! Non-owning byte spans over typed slices.
//!
//! A byte span pairs a byte length with a borrow of the typed slice the
//! bytes come from, so the span cannot outlive the data it points at.  It is
//! the form in which initial buffer contents are handed to buffer-view
//! allocation.

use vstd::prelude::*;

verus! {

/// A non-owning view of the bytes of a typed slice, valid for the borrow
/// scope of that slice.  No heap allocation is involved.
pub struct IreeConstByteSpan<'a, T> {
    byte_length: usize,
    _data: &'a [T],
}

impl<'a, T> IreeConstByteSpan<'a, T> {
    /// The length of the span in bytes.
    pub closed spec fn spec_byte_length(&self) -> usize {
        self.byte_length
    }

    /// Builds the span covering all of `data`: its base address, for
    /// `data.len() × size_of::<T>()` bytes.
    pub fn from_slice(data: &'a [T]) -> (r: Self)
        requires
            data@.len() * vstd::layout::size_of::<T>() <= usize::MAX,
        ensures
            r.spec_byte_length() == data@.len() * vstd::layout::size_of::<T>(),
    {
        IreeConstByteSpan { byte_length: data.len() * core::mem::size_of::<T>(), _data: data }
    }

    /// The length of the span in bytes.
    pub fn byte_length(&self) -> (n: usize)
        ensures
            n == self.spec_byte_length(),
    {
        self.byte_length
    }
}

} // verus!
