//! Reading a parsed type definition into a [`TypeDescriptor`].
//!
//! The syntax tree comes from the `syn` crate and is opaque to the verifier.
//! What it holds is therefore given names: its identifier, its shape, the list
//! of its attributes and the list of its fields. The functions marked
//! `external_body` below each read one part of the tree into plain values and
//! say in their contracts which part; those contracts are believed, not proved.
//! [`describe`] puts the parts together, and is proved to return the four named
//! things and nothing else.

use crate::descriptor::{
    Attribute, AttributeView, Field, FieldView, Shape, TypeDescriptor, TypeDescriptorView,
    Visibility,
};
use vstd::prelude::*;

verus! {

/// `syn::DeriveInput`: the syntax tree of a struct, enum or union definition.
#[verifier::external_type_specification]
#[verifier::external_body]
pub struct ExDeriveInput(syn::DeriveInput);

/// The identifier of the defined type, as text.
pub uninterp spec fn held_name(input: syn::DeriveInput) -> Seq<char>;

/// Whether the definition is that of a struct, an enum or a union.
pub uninterp spec fn held_shape(input: syn::DeriveInput) -> Shape;

/// The attributes on the definition, in the order in which they are written.
pub uninterp spec fn held_attributes(input: syn::DeriveInput) -> Seq<AttributeView>;

/// The fields of the definition in declaration order, where it is a struct.
pub uninterp spec fn held_fields(input: syn::DeriveInput) -> Seq<FieldView>;

/// What [`describe`] reads from a definition: the four things that it holds,
/// with fields for a struct only.
pub open spec fn described(input: syn::DeriveInput) -> TypeDescriptorView {
    TypeDescriptorView {
        name: held_name(input),
        shape: held_shape(input),
        attributes: held_attributes(input),
        fields: if held_shape(input) == Shape::Struct {
            held_fields(input)
        } else {
            Seq::empty()
        },
    }
}

/// The type's identifier: the field `ident` of `syn::DeriveInput`, printed by
/// `proc_macro2::Ident`'s `to_string`. The contract gives that text its name.
#[verifier::external_body]
fn definition_name(input: &syn::DeriveInput) -> (name: String)
    ensures
        name@ == held_name(*input),
{
    input.ident.to_string()
}

/// Which of the three variants of `syn::Data` the definition is. The contract
/// gives that answer its name.
#[verifier::external_body]
fn definition_shape(input: &syn::DeriveInput) -> (shape: Shape)
    ensures
        shape == held_shape(*input),
{
    match input.data {
        syn::Data::Struct(_) => Shape::Struct,
        syn::Data::Enum(_) => Shape::Enum,
        syn::Data::Union(_) => Shape::Union,
    }
}

/// The number of attributes on the definition: the length of the field `attrs`
/// of `syn::DeriveInput`, a `Vec`. The contract says that this is the length
/// of the list of attributes.
#[verifier::external_body]
fn attribute_count(input: &syn::DeriveInput) -> (count: usize)
    ensures
        count == held_attributes(*input).len(),
{
    input.attrs.len()
}

/// The attribute at `index` of the field `attrs`, by `Vec::get`, converted by
/// the variant of its `syn::Meta`. For a list, the path is what
/// `syn::Path::get_ident` returns, printed, and the tokens are those of
/// `syn::MetaList`, printed by `proc_macro2::TokenStream`'s `to_string`. The
/// contract says that there is one exactly below the length of the list, and
/// that it is the list's item at `index`.
#[verifier::external_body]
fn attribute_at(input: &syn::DeriveInput, index: usize) -> (attribute: Option<Attribute>)
    ensures
        attribute is Some <==> index < held_attributes(*input).len(),
        attribute matches Some(found) ==> found@ == held_attributes(*input)[index as int],
{
    match &input.attrs.get(index)?.meta {
        syn::Meta::Path(_) => Some(Attribute::Path),
        syn::Meta::List(list) => Some(
            Attribute::List {
                path: list.path.get_ident().map(|ident| ident.to_string()),
                tokens: list.tokens.to_string(),
            },
        ),
        syn::Meta::NameValue(_) => Some(Attribute::NameValue),
    }
}

/// The number of fields of a struct, by `syn::Fields::len`; `None` for an enum
/// or a union. The contract says that there is a number exactly for a struct,
/// and that it is the length of the list of fields.
#[verifier::external_body]
fn field_count(input: &syn::DeriveInput) -> (count: Option<usize>)
    ensures
        count is Some <==> held_shape(*input) == Shape::Struct,
        count matches Some(total) ==> total == held_fields(*input).len(),
{
    match &input.data {
        syn::Data::Struct(data) => Some(data.fields.len()),
        syn::Data::Enum(_) => None,
        syn::Data::Union(_) => None,
    }
}

/// The field of a struct at `index` in declaration order, by `syn::Fields::iter`:
/// its identifier printed, its type printed token by token through
/// `quote::ToTokens::to_token_stream`, and the variant of its
/// `syn::Visibility`. The contract says that a struct has one exactly below
/// the length of the list of fields, and that it is the list's item at `index`.
#[verifier::external_body]
fn field_at(input: &syn::DeriveInput, index: usize) -> (field: Option<Field>)
    ensures
        field is Some <==> (held_shape(*input) == Shape::Struct
            && index < held_fields(*input).len()),
        field matches Some(found) ==> found@ == held_fields(*input)[index as int],
{
    let syn::Data::Struct(data) = &input.data else {
        return None;
    };
    let field = data.fields.iter().nth(index)?;
    Some(
        Field {
            name: field.ident.as_ref().map(|ident| ident.to_string()),
            ty: quote::ToTokens::to_token_stream(&field.ty).to_string(),
            visibility: match field.vis {
                syn::Visibility::Public(_) => Visibility::Public,
                syn::Visibility::Restricted(_) => Visibility::Restricted,
                syn::Visibility::Inherited => Visibility::Inherited,
            },
        },
    )
}

/// Reads a parsed type definition: its name, its shape, all of its attributes
/// in the order in which they are written and, for a struct, all of its fields
/// in declaration order. Anything but a struct is described without fields.
pub fn describe(input: &syn::DeriveInput) -> (descriptor: TypeDescriptor)
    ensures
        descriptor@ == described(*input),
{
    let shape = definition_shape(input);
    let mut attributes: Vec<Attribute> = Vec::new();
    let attribute_total = attribute_count(input);
    let mut index: usize = 0;
    while index < attribute_total
        invariant
            index <= attribute_total,
            attribute_total == held_attributes(*input).len(),
            attributes@.len() == index,
            forall|i: int|
                0 <= i < index ==> (#[trigger] attributes@[i])@ == held_attributes(*input)[i],
        decreases attribute_total - index,
    {
        match attribute_at(input, index) {
            Some(attribute) => attributes.push(attribute),
            None => {},
        }
        index += 1;
    }
    let mut fields: Vec<Field> = Vec::new();
    match (shape, field_count(input)) {
        (Shape::Struct, Some(field_total)) => {
            let mut position: usize = 0;
            while position < field_total
                invariant
                    position <= field_total,
                    held_shape(*input) == Shape::Struct,
                    field_total == held_fields(*input).len(),
                    fields@.len() == position,
                    forall|i: int|
                        0 <= i < position ==> (#[trigger] fields@[i])@ == held_fields(*input)[i],
                decreases field_total - position,
            {
                match field_at(input, position) {
                    Some(field) => fields.push(field),
                    None => {},
                }
                position += 1;
            }
        },
        _ => {},
    }
    let descriptor = TypeDescriptor { name: definition_name(input), shape, attributes, fields };
    assert(descriptor@.attributes =~= held_attributes(*input));
    assert(descriptor@.fields =~= described(*input).fields);
    descriptor
}

} // verus!
