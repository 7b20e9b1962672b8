//! Addresses as plain machine words, and the calls into `core` that make and read
//! them. Nothing in this file is proved: each item says what is taken on trust.

use core::num::NonZeroUsize;
use core::ptr::NonNull;
use vstd::layout::align_of;
use vstd::prelude::*;

verus! {

/// A machine address that is never zero.
///
/// It is held as a `core::num::NonZeroUsize`, which leaves the zero word free, so
/// that an `Option` around a value that contains one needs no tag of its own. The
/// verifier cannot be shown that type, so it does not see inside this struct: all
/// it knows of a value is [`address_value`].
#[verifier::external_body]
pub struct BaseAddr {
    raw: NonZeroUsize,
}

/// The integer that a [`BaseAddr`] holds: what `NonZeroUsize::get` returns for it.
pub uninterp spec fn address_value(addr: BaseAddr) -> usize;

/// Calls `NonZeroUsize::new`.
///
/// Trusted: the result is `None` for zero and for nothing else, and a `Some` holds
/// the word that was passed in.
#[verifier::external_body]
pub(crate) fn address_new(word: usize) -> (addr: Option<BaseAddr>)
    ensures
        addr is Some <==> word != 0,
        addr matches Some(a) ==> address_value(a) == word,
{
    match NonZeroUsize::new(word) {
        Some(raw) => Some(BaseAddr { raw }),
        None => None,
    }
}

/// Calls `NonZeroUsize::get`.
///
/// Trusted: the result is the word that the address holds.
#[verifier::external_body]
pub(crate) fn address_get(addr: &BaseAddr) -> (word: usize)
    ensures
        word == address_value(*addr),
{
    addr.raw.get()
}

/// Calls `NonNull::from` on a shared slice and gives the address of its first
/// element as a word, with the pointer's provenance exposed so that a pointer made
/// from the word later may be used to read the elements.
///
/// Trusted: a reference is never null and is always aligned for what it refers to,
/// so the word is not zero and is a multiple of the element type's alignment. This
/// holds of an empty slice too. Which word it is depends on where the slice lies:
/// two calls on equal slices may differ.
#[verifier::external_body]
pub(crate) fn shared_start<T>(slice: &[T]) -> (word: usize)
    ensures
        word != 0,
        word as nat % align_of::<T>() == 0,
{
    NonNull::from(slice).expose_provenance().get()
}

/// Calls `NonNull::from` on an exclusive slice and gives the address of its first
/// element as a word, with the pointer's provenance exposed so that a pointer made
/// from the word later may be used to read and write the elements.
///
/// Trusted: as for [`shared_start`]; and the call writes nothing, so the slice holds
/// afterwards what it held before.
#[verifier::external_body]
pub(crate) fn exclusive_start<T>(slice: &mut [T]) -> (word: usize)
    ensures
        word != 0,
        word as nat % align_of::<T>() == 0,
        final(slice)@ == old(slice)@,
{
    NonNull::from(&mut *slice).expose_provenance().get()
}

} // verus!
