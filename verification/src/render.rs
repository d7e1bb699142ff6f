//! The text of declarations and of rejections.

use crate::generator::{Declaration, DeclarationView, GenerateError};
use vstd::prelude::*;
use vstd::string::StringExecFns;

verus! {

impl DeclarationView {
    /// The declaration as source text: an implementation of the marker trait
    /// for the derived type, with the base type as the trait's argument and
    /// nothing in its body. It is an `unsafe impl` where the marker certifies
    /// the layout.
    pub open spec fn rendered(self) -> Seq<char> {
        (if self.marker.is_certifying_spec() {
            "unsafe impl "@
        } else {
            "impl "@
        }) + self.crate_path + "::"@ + self.marker.trait_name_spec() + "<"@ + self.base_type
            + "> for "@ + self.derived_type + " {}"@
    }
}

impl Declaration {
    /// The declaration as source text.
    pub fn render(&self) -> (text: String)
        ensures
            text@ == self@.rendered(),
    {
        let mut text = if self.marker.is_certifying() {
            String::from_str("unsafe impl ")
        } else {
            String::from_str("impl ")
        };
        text.append(self.crate_path.as_str());
        text.append("::");
        let trait_name = self.marker.trait_name();
        text.append(trait_name.as_str());
        text.append("<");
        text.append(self.base_type.as_str());
        text.append("> for ");
        text.append(self.derived_type.as_str());
        text.append(" {}");
        text
    }
}

impl GenerateError {
    /// What the rejection tells the author of the type.
    pub open spec fn message_spec(self) -> Seq<char> {
        match self {
            GenerateError::ShapeError => "type must be a struct"@,
            GenerateError::LayoutError => "struct must be #[repr(C)]"@,
            GenerateError::EmptyTypeError => "struct must not be empty"@,
            GenerateError::VisibilityError => "base field must be public"@,
        }
    }

    /// What the rejection tells the author of the type.
    pub fn message(&self) -> (text: String)
        ensures
            text@ == self.message_spec(),
    {
        match self {
            GenerateError::ShapeError => String::from_str("type must be a struct"),
            GenerateError::LayoutError => String::from_str("struct must be #[repr(C)]"),
            GenerateError::EmptyTypeError => String::from_str("struct must not be empty"),
            GenerateError::VisibilityError => String::from_str("base field must be public"),
        }
    }
}

} // verus!
