//! The description of a type definition that the generator works on.

use vstd::prelude::*;
use vstd::string::StringExecFns;

verus! {

/// What kind of type a definition introduces.
#[derive(Clone, Copy, Debug, PartialEq, Eq, Structural)]
pub enum Shape {
    /// A product type: a struct with named fields, a tuple struct or a unit struct.
    Struct,
    /// A sum type.
    Enum,
    /// An untagged union.
    Union,
}

/// Who can name a field.
#[derive(Clone, Copy, Debug, PartialEq, Eq, Structural)]
pub enum Visibility {
    /// `pub`: accessible from everywhere.
    Public,
    /// `pub(crate)`, `pub(super)`, `pub(in path)`: accessible from part of the crate.
    Restricted,
    /// No qualifier: private to the defining module.
    Inherited,
}

/// An attribute on the type definition.
#[derive(Clone, Debug, PartialEq, Eq)]
pub enum Attribute {
    /// A bare path, such as `#[non_exhaustive]`.
    Path,
    /// A path followed by delimited tokens, such as `#[repr(C)]`.
    List {
        /// The path, where it is a single identifier.
        path: Option<String>,
        /// The tokens between the delimiters, as text.
        tokens: String,
    },
    /// A path with a value, such as `#[doc = "text"]`.
    NameValue,
}

/// The mathematical value of an [`Attribute`].
pub enum AttributeView {
    Path,
    List { path: Option<Seq<char>>, tokens: Seq<char> },
    NameValue,
}

/// A field of a product type.
#[derive(Clone, Debug, PartialEq, Eq)]
pub struct Field {
    /// The field's name; `None` for the fields of a tuple struct, which go by position.
    pub name: Option<String>,
    /// The field's type, as written.
    pub ty: String,
    pub visibility: Visibility,
}

/// The mathematical value of a [`Field`].
pub struct FieldView {
    pub name: Option<Seq<char>>,
    pub ty: Seq<char>,
    pub visibility: Visibility,
}

/// A type definition, as far as base casting is concerned.
#[derive(Clone, Debug, PartialEq, Eq)]
pub struct TypeDescriptor {
    /// The identifier of the type.
    pub name: String,
    pub shape: Shape,
    pub attributes: Vec<Attribute>,
    /// The fields in declaration order; empty for anything but a struct.
    pub fields: Vec<Field>,
}

/// The mathematical value of a [`TypeDescriptor`].
pub struct TypeDescriptorView {
    pub name: Seq<char>,
    pub shape: Shape,
    pub attributes: Seq<AttributeView>,
    pub fields: Seq<FieldView>,
}

impl View for Attribute {
    type V = AttributeView;

    open spec fn view(&self) -> AttributeView {
        match *self {
            Attribute::Path => AttributeView::Path,
            Attribute::List { path, tokens } => AttributeView::List {
                path: match path {
                    Some(ident) => Some(ident@),
                    None => None,
                },
                tokens: tokens@,
            },
            Attribute::NameValue => AttributeView::NameValue,
        }
    }
}

impl View for Field {
    type V = FieldView;

    open spec fn view(&self) -> FieldView {
        FieldView {
            name: match self.name {
                Some(ident) => Some(ident@),
                None => None,
            },
            ty: self.ty@,
            visibility: self.visibility,
        }
    }
}

impl View for TypeDescriptor {
    type V = TypeDescriptorView;

    open spec fn view(&self) -> TypeDescriptorView {
        TypeDescriptorView {
            name: self.name@,
            shape: self.shape,
            attributes: Seq::new(self.attributes@.len(), |i: int| self.attributes@[i]@),
            fields: Seq::new(self.fields@.len(), |i: int| self.fields@[i]@),
        }
    }
}

impl AttributeView {
    /// Whether this is exactly `repr(C)`: the declaration of a sequential layout,
    /// with fields in declaration order and nothing else asked for.
    pub open spec fn is_repr_c(self) -> bool {
        self == (AttributeView::List { path: Some("repr"@), tokens: "C"@ })
    }
}

impl TypeDescriptorView {
    /// Whether the definition declares the explicit sequential layout.
    pub open spec fn is_sequential(self) -> bool {
        exists|i: int| 0 <= i < self.attributes.len() && (#[trigger] self.attributes[i]).is_repr_c()
    }

    /// The field that is designated as the base: the first one, if there is one.
    pub open spec fn base_field(self) -> Option<FieldView> {
        if self.fields.len() > 0 {
            Some(self.fields[0])
        } else {
            None
        }
    }
}

impl Attribute {
    /// Whether this is exactly `repr(C)`.
    pub fn is_repr_c(&self) -> (found: bool)
        ensures
            found == self@.is_repr_c(),
    {
        match self {
            Attribute::List { path: Some(ident), tokens } => {
                *ident == String::from_str("repr") && *tokens == String::from_str("C")
            },
            _ => false,
        }
    }
}

impl TypeDescriptor {
    /// Whether the definition declares the explicit sequential layout.
    pub fn is_sequential(&self) -> (found: bool)
        ensures
            found == self@.is_sequential(),
    {
        let mut index: usize = 0;
        while index < self.attributes.len()
            invariant
                index <= self.attributes@.len(),
                forall|i: int| 0 <= i < index ==> !(#[trigger] self@.attributes[i]).is_repr_c(),
            decreases self.attributes@.len() - index,
        {
            if self.attributes[index].is_repr_c() {
                assert(self@.attributes[index as int].is_repr_c());
                return true;
            }
            index += 1;
        }
        false
    }

    /// The field that is designated as the base: the first one, if there is one.
    pub fn base_field(&self) -> (base: Option<&Field>)
        ensures
            match base {
                Some(field) => self@.base_field() == Some(field@),
                None => self@.base_field().is_none(),
            },
    {
        if self.fields.len() > 0 {
            Some(&self.fields[0])
        } else {
            None
        }
    }
}

} // verus!
