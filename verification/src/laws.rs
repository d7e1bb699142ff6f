//! What holds of every run of the generator.

use crate::capability::{Capability, Marker};
use crate::descriptor::{Shape, TypeDescriptorView, Visibility};
use crate::generator::{emitted, generated, DeclarationView, GenerateError, Request};
use vstd::prelude::*;

verus! {

/// Whether one of the declarations is for the marker of `capability`.
pub open spec fn declares(declarations: Seq<DeclarationView>, capability: Capability) -> bool {
    exists|i: int|
        0 <= i < declarations.len() && (#[trigger] declarations[i]).marker == Marker::One(
            capability,
        )
}

/// Whether one of the declarations is for the aggregate marker.
pub open spec fn declares_aggregate(declarations: Seq<DeclarationView>) -> bool {
    exists|i: int|
        0 <= i < declarations.len() && (#[trigger] declarations[i]).marker == Marker::Full
}

/// Anything but a product type is rejected with `ShapeError`, whatever else
/// holds of it and whatever is requested.
pub proof fn lemma_shape_is_checked_first(
    input: TypeDescriptorView,
    crate_path: Seq<char>,
    strict: bool,
    markers: Seq<Marker>,
)
    requires
        input.shape != Shape::Struct,
    ensures
        generated(input, crate_path, strict, markers) == Err::<
            Seq<DeclarationView>,
            GenerateError,
        >(GenerateError::ShapeError),
{
}

/// A product type that does not declare the explicit sequential layout is
/// rejected with `LayoutError`, whatever is requested: generation never
/// succeeds on it.
pub proof fn lemma_layout_is_required(
    input: TypeDescriptorView,
    crate_path: Seq<char>,
    strict: bool,
    markers: Seq<Marker>,
)
    requires
        input.shape == Shape::Struct,
        !input.is_sequential(),
    ensures
        generated(input, crate_path, strict, markers) == Err::<
            Seq<DeclarationView>,
            GenerateError,
        >(GenerateError::LayoutError),
{
}

/// A product type with the explicit sequential layout and no field is rejected
/// with `EmptyTypeError`, whatever is requested.
pub proof fn lemma_empty_type_is_rejected(
    input: TypeDescriptorView,
    crate_path: Seq<char>,
    strict: bool,
    markers: Seq<Marker>,
)
    requires
        input.shape == Shape::Struct,
        input.is_sequential(),
        input.fields.len() == 0,
    ensures
        generated(input, crate_path, strict, markers) == Err::<
            Seq<DeclarationView>,
            GenerateError,
        >(GenerateError::EmptyTypeError),
{
}

/// Where the type passes the earlier checks and its first field is not
/// accessible from everywhere, a strict request is rejected with
/// `VisibilityError`, and the aggregate request succeeds.
pub proof fn lemma_visibility_binds_strict_requests_only(
    input: TypeDescriptorView,
    crate_path: Seq<char>,
    markers: Seq<Marker>,
)
    requires
        input.shape == Shape::Struct,
        input.is_sequential(),
        input.fields.len() > 0,
        input.fields[0].visibility != Visibility::Public,
    ensures
        generated(input, crate_path, true, markers) == Err::<Seq<DeclarationView>, GenerateError>(
            GenerateError::VisibilityError,
        ),
        generated(input, crate_path, false, markers) == Ok::<Seq<DeclarationView>, GenerateError>(
            emitted(input, crate_path, markers),
        ),
{
}

/// Generation succeeds exactly on a product type with the explicit sequential
/// layout and a first field that, for a strict request, is accessible from
/// everywhere.
pub proof fn lemma_success_is_owed(
    input: TypeDescriptorView,
    crate_path: Seq<char>,
    strict: bool,
    markers: Seq<Marker>,
)
    ensures
        generated(input, crate_path, strict, markers) is Ok <==> {
            &&& input.shape == Shape::Struct
            &&& input.is_sequential()
            &&& input.fields.len() > 0
            &&& (strict ==> input.fields[0].visibility == Visibility::Public)
        },
{
}

/// Every declaration binds the type to the type of its first field, as it is
/// written: there is one base, and each marker is declared for it.
pub proof fn lemma_base_is_first_field(
    input: TypeDescriptorView,
    crate_path: Seq<char>,
    strict: bool,
    markers: Seq<Marker>,
    index: int,
)
    requires
        generated(input, crate_path, strict, markers) is Ok,
        0 <= index < markers.len(),
    ensures
        input.base_field() is Some,
        generated(input, crate_path, strict, markers)->Ok_0.len() == markers.len(),
        generated(input, crate_path, strict, markers)->Ok_0[index] == (DeclarationView {
            derived_type: input.name,
            base_type: input.base_field()->0.ty,
            marker: markers[index],
            crate_path,
        }),
{
}

/// A capability is declared exactly if it was requested: of a strict request,
/// the capabilities that it lists and no other; of the aggregate request, all four.
pub proof fn lemma_declared_is_requested(
    input: TypeDescriptorView,
    crate_path: Seq<char>,
    request: Request,
    capability: Capability,
)
    requires
        generated(input, crate_path, request.is_strict(), request.markers()) is Ok,
    ensures
        declares(
            generated(input, crate_path, request.is_strict(), request.markers())->Ok_0,
            capability,
        ) <==> match request {
            Request::Aggregate => true,
            Request::Capabilities(capabilities) => capabilities@.contains(capability),
        },
{
    let markers = request.markers();
    let declarations = emitted(input, crate_path, markers);
    match request {
        Request::Aggregate => {
            let position: int = match capability {
                Capability::Ref => 0,
                Capability::Mut => 1,
                Capability::Pin => 2,
                Capability::PinMut => 3,
            };
            assert(declarations[position].marker == Marker::One(capability));
        },
        Request::Capabilities(capabilities) => {
            if capabilities@.contains(capability) {
                let position = choose|i: int|
                    0 <= i < capabilities@.len() && capabilities@[i] == capability;
                assert(declarations[position].marker == Marker::One(capability));
            }
            if declares(declarations, capability) {
                let position = choose|i: int|
                    0 <= i < declarations.len() && (#[trigger] declarations[i]).marker
                        == Marker::One(capability);
                assert(capabilities@[position] == capability);
            }
        },
    }
}

/// The aggregate marker is declared only together with all four capabilities.
pub proof fn lemma_aggregate_comes_with_all_four(
    input: TypeDescriptorView,
    crate_path: Seq<char>,
    request: Request,
    capability: Capability,
)
    requires
        generated(input, crate_path, request.is_strict(), request.markers()) is Ok,
        declares_aggregate(
            generated(input, crate_path, request.is_strict(), request.markers())->Ok_0,
        ),
    ensures
        request is Aggregate,
        declares(
            generated(input, crate_path, request.is_strict(), request.markers())->Ok_0,
            capability,
        ),
{
    lemma_declared_is_requested(input, crate_path, request, capability);
}

} // verus!
