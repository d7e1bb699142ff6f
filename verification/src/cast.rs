//! The capabilities of a derived type and the cast that each of them enables.
//!
//! A derived type embeds its base as its first field. Each capability is a
//! trait of its own, so that a type can offer any subset of the casts, and all
//! of them can be called through a trait object: the concrete derived type need
//! not be known where the cast is made.

use std::pin::Pin;
use vstd::prelude::*;

verus! {

/// `std::pin::Pin`, which the address-stable casts take and return. Nothing is
/// stated of what a pinned handle points to.
#[verifier::external_type_specification]
#[verifier::external_body]
#[verifier::reject_recursive_types(Ptr)]
pub struct ExPin<Ptr>(Pin<Ptr>);

/// The model of a derived type: the base value that it embeds.
///
/// Implementations outside verified code write `base` as an ordinary method
/// that returns a copy of the base field.
pub trait Embeds<T> {
    /// The base value embedded at the start of `self`.
    spec fn base(&self) -> T;
}

/// Shared handles to `Self` can be cast to shared handles to `T`.
pub trait AsBaseRef<T>: Embeds<T> {
    /// The embedded base, read through the derived value.
    fn as_base(&self) -> (base: &T)
        ensures
            *base == self.base(),
    ;
}

/// Exclusive handles to `Self` can be cast to exclusive handles to `T`.
pub trait AsBaseMut<T>: Embeds<T> {
    /// The embedded base, for writing. The handle starts out at the base that
    /// the derived value holds, and whatever is written through it is the base
    /// that the derived value holds afterwards.
    fn as_base_mut(&mut self) -> (base: &mut T)
        ensures
            *base == old(self).base(),
            final(self).base() == *final(base),
    ;
}

/// Address-stable shared handles to `Self` can be cast to address-stable
/// shared handles to `T`.
pub trait AsBasePin<T>: Embeds<T> {
    fn as_base_pin(self: Pin<&Self>) -> Pin<&T>;
}

/// Address-stable exclusive handles to `Self` can be cast to address-stable
/// exclusive handles to `T`.
pub trait AsBasePinMut<T>: Embeds<T> {
    fn as_base_pin_mut(self: Pin<&mut Self>) -> Pin<&mut T>;
}

/// Full base access: all four casts at once. The trait adds nothing of its own.
pub trait AsBase<T>: AsBaseRef<T> + AsBaseMut<T> + AsBasePin<T> + AsBasePinMut<T> {

}

} // verus!
