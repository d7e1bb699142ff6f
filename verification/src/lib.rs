//! Base casting: treating a value of a derived type as a value of the base type
//! that it embeds as its first field.

pub mod capability;
pub mod cast;
pub mod descriptor;
pub mod generator;
pub mod laws;
pub mod layout;
pub mod render;
pub mod syntax;

pub use capability::{Capability, Marker};
pub use cast::{AsBase, AsBaseMut, AsBasePin, AsBasePinMut, AsBaseRef, Embeds};
pub use descriptor::{Attribute, Field, Shape, TypeDescriptor, Visibility};
pub use generator::{
    as_base_crate, derive_as_base, derive_as_base_impl, derive_as_base_mut, derive_as_base_pin,
    derive_as_base_pin_mut, derive_as_base_ref, Declaration, FoundCrate, GenerateError, Request,
};
pub use syntax::describe;
