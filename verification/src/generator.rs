//! The layout contract generator: decides whether a type definition is eligible
//! for base casting and, if it is, emits the declarations that say so.

use crate::capability::{Capability, Marker};
use crate::descriptor::{Shape, TypeDescriptor, TypeDescriptorView, Visibility};
use vstd::prelude::*;
use vstd::string::StringExecFns;

verus! {

/// Why a type definition is not eligible for base casting.
#[derive(Clone, Copy, Debug, PartialEq, Eq, Structural)]
pub enum GenerateError {
    /// The type is not a product type.
    ShapeError,
    /// The type does not declare the explicit sequential layout.
    LayoutError,
    /// The type has no field that could be its base.
    EmptyTypeError,
    /// The base field is not accessible from everywhere.
    VisibilityError,
}

/// Which declarations are asked for.
#[derive(Clone, Debug, PartialEq, Eq)]
pub enum Request {
    /// Everything, through the single aggregate marker: the four capabilities
    /// and the aggregate itself.
    Aggregate,
    /// The listed capabilities, each through its own marker.
    Capabilities(Vec<Capability>),
}

/// The fact that handles to `derived_type` may be cast to handles to
/// `base_type`, for one marker.
#[derive(Clone, Debug, PartialEq, Eq)]
pub struct Declaration {
    pub derived_type: String,
    pub base_type: String,
    pub marker: Marker,
    /// The path under which the marker traits are found.
    pub crate_path: String,
}

/// The mathematical value of a [`Declaration`].
pub struct DeclarationView {
    pub derived_type: Seq<char>,
    pub base_type: Seq<char>,
    pub marker: Marker,
    pub crate_path: Seq<char>,
}

impl View for Declaration {
    type V = DeclarationView;

    open spec fn view(&self) -> DeclarationView {
        DeclarationView {
            derived_type: self.derived_type@,
            base_type: self.base_type@,
            marker: self.marker,
            crate_path: self.crate_path@,
        }
    }
}

/// The markers that the aggregate request declares: the four capabilities, then
/// the aggregate itself.
pub open spec fn aggregate_markers() -> Seq<Marker> {
    seq![
        Marker::One(Capability::Ref),
        Marker::One(Capability::Mut),
        Marker::One(Capability::Pin),
        Marker::One(Capability::PinMut),
        Marker::Full,
    ]
}

impl Request {
    /// Whether the request is of the strict form, which lists capabilities
    /// one by one and insists on an accessible base field.
    pub open spec fn is_strict(self) -> bool {
        self is Capabilities
    }

    /// The markers to declare, in the order in which they are emitted.
    pub open spec fn markers(self) -> Seq<Marker> {
        match self {
            Request::Aggregate => aggregate_markers(),
            Request::Capabilities(capabilities) => Seq::new(
                capabilities@.len(),
                |i: int| Marker::One(capabilities@[i]),
            ),
        }
    }
}

/// The first requirement that `input` fails to meet, checked in order: product
/// type, sequential layout, at least one field, and (for a strict request) an
/// accessible base field.
pub open spec fn rejection(input: TypeDescriptorView, strict: bool) -> Option<GenerateError> {
    if input.shape != Shape::Struct {
        Some(GenerateError::ShapeError)
    } else if !input.is_sequential() {
        Some(GenerateError::LayoutError)
    } else if input.fields.len() == 0 {
        Some(GenerateError::EmptyTypeError)
    } else if strict && input.fields[0].visibility != Visibility::Public {
        Some(GenerateError::VisibilityError)
    } else {
        None
    }
}

/// One declaration per marker, each binding the type to the type of its first field.
pub open spec fn emitted(
    input: TypeDescriptorView,
    crate_path: Seq<char>,
    markers: Seq<Marker>,
) -> Seq<DeclarationView> {
    Seq::new(
        markers.len(),
        |i: int|
            DeclarationView {
                derived_type: input.name,
                base_type: input.fields[0].ty,
                marker: markers[i],
                crate_path,
            },
    )
}

/// What generation yields: the rejection, if there is one, and else one
/// declaration for each of the markers.
pub open spec fn generated(
    input: TypeDescriptorView,
    crate_path: Seq<char>,
    strict: bool,
    markers: Seq<Marker>,
) -> Result<Seq<DeclarationView>, GenerateError> {
    match rejection(input, strict) {
        Some(error) => Err(error),
        None => Ok(emitted(input, crate_path, markers)),
    }
}

/// Whether `result` is what `expected` describes: the same rejection, or the
/// same declarations in the same order.
pub open spec fn yields(
    result: Result<Vec<Declaration>, GenerateError>,
    expected: Result<Seq<DeclarationView>, GenerateError>,
) -> bool {
    match result {
        Ok(declarations) => {
            &&& expected matches Ok(views)
            &&& declarations@.len() == views.len()
            &&& forall|i: int| 0 <= i < views.len() ==> (#[trigger] declarations@[i])@ == views[i]
        },
        Err(error) => expected == Err::<Seq<DeclarationView>, GenerateError>(error),
    }
}

/// Checks `input` against the requirements of base casting.
pub fn validate(input: &TypeDescriptor, strict: bool) -> (result: Result<(), GenerateError>)
    ensures
        match result {
            Ok(_) => rejection(input@, strict).is_none(),
            Err(error) => rejection(input@, strict) == Some(error),
        },
{
    match input.shape {
        Shape::Struct => {},
        _ => {
            return Err(GenerateError::ShapeError);
        },
    }
    if !input.is_sequential() {
        return Err(GenerateError::LayoutError);
    }
    match input.base_field() {
        None => Err(GenerateError::EmptyTypeError),
        Some(base) => {
            match base.visibility {
                Visibility::Public => Ok(()),
                _ => if strict {
                    Err(GenerateError::VisibilityError)
                } else {
                    Ok(())
                },
            }
        },
    }
}

/// The markers of a request, in the order in which they are emitted.
pub fn requested_markers(request: &Request) -> (markers: Vec<Marker>)
    ensures
        markers@ == request.markers(),
{
    let mut markers: Vec<Marker> = Vec::new();
    match request {
        Request::Aggregate => {
            markers.push(Marker::One(Capability::Ref));
            markers.push(Marker::One(Capability::Mut));
            markers.push(Marker::One(Capability::Pin));
            markers.push(Marker::One(Capability::PinMut));
            markers.push(Marker::Full);
        },
        Request::Capabilities(capabilities) => {
            let mut index: usize = 0;
            while index < capabilities.len()
                invariant
                    index <= capabilities@.len(),
                    markers@.len() == index,
                    forall|i: int|
                        0 <= i < index ==> markers@[i] == Marker::One(capabilities@[i]),
                decreases capabilities@.len() - index,
            {
                markers.push(Marker::One(capabilities[index]));
                index += 1;
            }
        },
    }
    assert(markers@ =~= request.markers());
    markers
}

/// Generates the declarations that `request` asks for on the type that `input`
/// describes, with the marker traits found under `as_base_crate`.
pub fn derive_as_base_impl(
    input: &TypeDescriptor,
    as_base_crate: &str,
    request: &Request,
) -> (result: Result<Vec<Declaration>, GenerateError>)
    ensures
        yields(
            result,
            generated(input@, as_base_crate@, request.is_strict(), request.markers()),
        ),
{
    let strict = match request {
        Request::Aggregate => false,
        Request::Capabilities(_) => true,
    };
    match validate(input, strict) {
        Err(error) => {
            return Err(error);
        },
        Ok(_) => {},
    }
    let base = &input.fields[0];
    let markers = requested_markers(request);
    let mut declarations: Vec<Declaration> = Vec::new();
    let mut index: usize = 0;
    while index < markers.len()
        invariant
            index <= markers@.len(),
            declarations@.len() == index,
            input@.fields.len() > 0,
            *base == input.fields@[0],
            forall|i: int|
                0 <= i < index ==> (#[trigger] declarations@[i])@ == emitted(
                    input@,
                    as_base_crate@,
                    markers@,
                )[i],
        decreases markers@.len() - index,
    {
        declarations.push(
            Declaration {
                derived_type: input.name.clone(),
                base_type: base.ty.clone(),
                marker: markers[index],
                crate_path: String::from_str(as_base_crate),
            },
        );
        index += 1;
    }
    Ok(declarations)
}

/// Where the crate that defines the marker traits was found.
#[derive(Clone, Debug, PartialEq, Eq)]
pub enum FoundCrate {
    /// The declarations are generated inside that crate itself.
    Itself,
    /// It is a dependency, known under this name.
    Name(String),
}

/// The path under which the marker traits are reached: `crate` from inside
/// the defining crate, and else the name that the crate goes by.
pub fn as_base_crate(found: &FoundCrate) -> (path: String)
    ensures
        path@ == match *found {
            FoundCrate::Itself => "crate"@,
            FoundCrate::Name(name) => name@,
        },
{
    match found {
        FoundCrate::Itself => String::from_str("crate"),
        FoundCrate::Name(name) => name.clone(),
    }
}

/// The request for a single capability, in the strict form.
fn single(capability: Capability) -> (request: Request)
    ensures
        request.is_strict(),
        request.markers() == seq![Marker::One(capability)],
{
    let mut capabilities: Vec<Capability> = Vec::new();
    capabilities.push(capability);
    let request = Request::Capabilities(capabilities);
    assert(request.markers() =~= seq![Marker::One(capability)]);
    request
}

/// Declares full base access: the four capabilities and the aggregate marker.
/// The base field need not be accessible from everywhere.
pub fn derive_as_base(input: &TypeDescriptor, as_base_crate: &str) -> (result: Result<
    Vec<Declaration>,
    GenerateError,
>)
    ensures
        yields(result, generated(input@, as_base_crate@, false, aggregate_markers())),
{
    derive_as_base_impl(input, as_base_crate, &Request::Aggregate)
}

/// Declares the cast of shared handles alone.
pub fn derive_as_base_ref(input: &TypeDescriptor, as_base_crate: &str) -> (result: Result<
    Vec<Declaration>,
    GenerateError,
>)
    ensures
        yields(
            result,
            generated(input@, as_base_crate@, true, seq![Marker::One(Capability::Ref)]),
        ),
{
    derive_as_base_impl(input, as_base_crate, &single(Capability::Ref))
}

/// Declares the cast of exclusive handles alone.
pub fn derive_as_base_mut(input: &TypeDescriptor, as_base_crate: &str) -> (result: Result<
    Vec<Declaration>,
    GenerateError,
>)
    ensures
        yields(
            result,
            generated(input@, as_base_crate@, true, seq![Marker::One(Capability::Mut)]),
        ),
{
    derive_as_base_impl(input, as_base_crate, &single(Capability::Mut))
}

/// Declares the cast of address-stable shared handles alone.
pub fn derive_as_base_pin(input: &TypeDescriptor, as_base_crate: &str) -> (result: Result<
    Vec<Declaration>,
    GenerateError,
>)
    ensures
        yields(
            result,
            generated(input@, as_base_crate@, true, seq![Marker::One(Capability::Pin)]),
        ),
{
    derive_as_base_impl(input, as_base_crate, &single(Capability::Pin))
}

/// Declares the cast of address-stable exclusive handles alone.
pub fn derive_as_base_pin_mut(input: &TypeDescriptor, as_base_crate: &str) -> (result: Result<
    Vec<Declaration>,
    GenerateError,
>)
    ensures
        yields(
            result,
            generated(input@, as_base_crate@, true, seq![Marker::One(Capability::PinMut)]),
        ),
{
    derive_as_base_impl(input, as_base_crate, &single(Capability::PinMut))
}

} // verus!
