//! The four casting capabilities and the marker traits that declare them.

use vstd::prelude::*;
use vstd::string::StringExecFns;

verus! {

/// One kind of handle that may be cast from a derived type to its base.
#[derive(Clone, Copy, Debug, PartialEq, Eq, Structural)]
pub enum Capability {
    /// Shared handles, cast by `as_base`.
    Ref,
    /// Exclusive handles, cast by `as_base_mut`.
    Mut,
    /// Address-stable shared handles, cast by `as_base_pin`.
    Pin,
    /// Address-stable exclusive handles, cast by `as_base_pin_mut`.
    PinMut,
}

/// A marker trait that a declaration implements for a derived type.
#[derive(Clone, Copy, Debug, PartialEq, Eq, Structural)]
pub enum Marker {
    /// The marker of a single capability.
    One(Capability),
    /// The aggregate marker, which stands for all four capabilities together.
    Full,
}

impl Capability {
    /// The name of the marker trait of this capability.
    pub open spec fn trait_name_spec(self) -> Seq<char> {
        match self {
            Capability::Ref => "AsBaseRef"@,
            Capability::Mut => "AsBaseMut"@,
            Capability::Pin => "AsBasePin"@,
            Capability::PinMut => "AsBasePinMut"@,
        }
    }

    /// The name of the marker trait of this capability.
    pub fn trait_name(&self) -> (name: String)
        ensures
            name@ == self.trait_name_spec(),
    {
        match self {
            Capability::Ref => String::from_str("AsBaseRef"),
            Capability::Mut => String::from_str("AsBaseMut"),
            Capability::Pin => String::from_str("AsBasePin"),
            Capability::PinMut => String::from_str("AsBasePinMut"),
        }
    }
}

impl Marker {
    /// The name of the marker trait.
    pub open spec fn trait_name_spec(self) -> Seq<char> {
        match self {
            Marker::One(capability) => capability.trait_name_spec(),
            Marker::Full => "AsBase"@,
        }
    }

    /// Whether implementing the marker certifies a layout, so that the
    /// implementation has to be written as `unsafe impl`. The aggregate marker
    /// certifies nothing beyond what the four it collects do.
    pub open spec fn is_certifying_spec(self) -> bool {
        self is One
    }

    /// The name of the marker trait.
    pub fn trait_name(&self) -> (name: String)
        ensures
            name@ == self.trait_name_spec(),
    {
        match self {
            Marker::One(capability) => capability.trait_name(),
            Marker::Full => String::from_str("AsBase"),
        }
    }

    /// Whether implementing the marker has to be written as `unsafe impl`.
    pub fn is_certifying(&self) -> (certifying: bool)
        ensures
            certifying == self.is_certifying_spec(),
    {
        match self {
            Marker::One(_) => true,
            Marker::Full => false,
        }
    }
}

} // verus!
