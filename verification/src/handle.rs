//! The handle itself: how it is built from a slice or from its two words, and how
//! the words are read back.

use crate::address::{address_get, address_new, address_value, exclusive_start, shared_start, BaseAddr};
use vstd::layout::align_of;
use vstd::prelude::*;

verus! {

/// What a handle says, as two plain words: the address at which the run starts and
/// the number of elements in it.
pub struct Span {
    pub base: usize,
    pub count: usize,
}

impl Span {
    /// The base is a multiple of the alignment of `T`: a slice of `T` may start
    /// there.
    pub open spec fn aligned_for<T>(self) -> bool {
        self.base as nat % align_of::<T>() == 0
    }
}

/// A borrowed run of elements, reduced to its base address and its element count.
///
/// The handle owns nothing and remembers neither the element type nor whether it
/// was made from a shared or an exclusive slice. Its base is never zero.
pub struct RustSlice {
    base: BaseAddr,
    count: usize,
}

impl View for RustSlice {
    type V = Span;

    closed spec fn view(&self) -> Span {
        Span { base: address_value(self.base), count: self.count }
    }
}

impl RustSlice {
    #[verifier::type_invariant]
    spec fn base_is_not_zero(self) -> bool {
        address_value(self.base) != 0
    }

    /// Describes a shared slice: the count is the slice's length, the base is the
    /// address of its first element, which is never zero and always aligned for
    /// `T`, also when the slice is empty.
    pub fn from_ref<T>(slice: &[T]) -> (handle: Self)
        ensures
            handle@.count == slice@.len(),
            handle@.base != 0,
            handle@.aligned_for::<T>(),
    {
        let base = shared_start(slice);
        let count = slice.len();
        Self::from_raw_parts(base, count)
    }

    /// Describes an exclusive slice, in the same two words as [`RustSlice::from_ref`]
    /// would. The slice is left as it was.
    pub fn from_mut<T>(slice: &mut [T]) -> (handle: Self)
        ensures
            handle@.count == old(slice)@.len(),
            handle@.base != 0,
            handle@.aligned_for::<T>(),
            final(slice)@ == old(slice)@,
    {
        let base = exclusive_start(slice);
        let count = slice.len();
        Self::from_raw_parts(base, count)
    }

    /// Builds the handle that holds exactly these two words. Zero is no base: it
    /// is the word left free to stand for the absence of a handle.
    pub fn from_raw_parts(base: usize, count: usize) -> (handle: Self)
        requires
            base != 0,
        ensures
            handle@ == (Span { base, count }),
    {
        match address_new(base) {
            Some(addr) => RustSlice { base: addr, count },
            None => vstd::pervasive::unreached(),
        }
    }

    /// The base address, which is never zero.
    pub fn as_ptr(&self) -> (base: usize)
        ensures
            base == self@.base,
            base != 0,
    {
        proof {
            use_type_invariant(self);
        }
        address_get(&self.base)
    }

    /// The number of elements.
    pub fn len(&self) -> (count: usize)
        ensures
            count == self@.count,
    {
        self.count
    }
}

} // verus!
