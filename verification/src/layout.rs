//! Where the base lies in memory: a model of the explicit sequential layout.
//!
//! In that layout the fields stand in declaration order, each at the first
//! position after the one before it that its alignment allows. The model is
//! there to say why the generator insists on it: the first field then starts
//! where the whole value starts, so a handle to the base holds the address
//! that the handle to the derived value held.

use crate::descriptor::TypeDescriptorView;
use crate::generator::rejection;
use vstd::prelude::*;

verus! {

/// How much room a field takes, in bytes.
pub struct FieldLayout {
    pub size: nat,
    /// The alignment of the field's type; a positive number.
    pub align: nat,
}

/// The least position at or after `position` that is a multiple of `align`.
pub open spec fn aligned(position: nat, align: nat) -> nat {
    if align == 0 || position % align == 0 {
        position
    } else {
        (position + align - position % align) as nat
    }
}

/// The offset of the field at `index` from the start of the value, in the
/// sequential layout of `fields`.
pub open spec fn sequential_offset(fields: Seq<FieldLayout>, index: int) -> nat
    decreases index,
{
    if index <= 0 {
        0
    } else {
        aligned(
            sequential_offset(fields, index - 1) + fields[index - 1].size,
            fields[index].align,
        )
    }
}

/// The address of the base of a derived value that starts at `derived`: that
/// of its first field.
pub open spec fn base_address(derived: nat, fields: Seq<FieldLayout>) -> nat {
    derived + sequential_offset(fields, 0)
}

/// For every type that the generator accepts, whatever the sizes and
/// alignments of its fields, the base lies at the address of the derived
/// value: a cast changes the type of a handle and not its address.
pub proof fn lemma_cast_keeps_the_address(
    input: TypeDescriptorView,
    strict: bool,
    fields: Seq<FieldLayout>,
    derived: nat,
)
    requires
        rejection(input, strict) is None,
        fields.len() == input.fields.len(),
    ensures
        input.is_sequential(),
        fields.len() > 0,
        base_address(derived, fields) == derived,
{
}

} // verus!
