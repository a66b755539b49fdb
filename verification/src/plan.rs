//! The shape of a builder, derived one to one from a record's description.

use crate::descriptor::{FieldDescriptor, FieldShape, FieldType, RecordShape, TypeDescriptor, TypeShape};
use crate::naming::{builder_name, builder_name_of, setter_name, setter_name_of};
use vstd::prelude::*;

verus! {

/// One slot of a builder: the storage cell of one field, which is unset or
/// holds a value of the field's type.
#[derive(Debug, PartialEq, Eq)]
pub struct SlotSpec {
    /// The field's name, which is the slot's name too.
    pub name: String,
    /// The name of the operation that fills the slot.
    pub setter: String,
    /// The type of the value that the slot holds once set.
    pub ty: FieldType,
    /// Whether the slot must be set for the record to be built.
    pub required: bool,
}

/// The mathematical value of a [`SlotSpec`].
pub struct SlotShape {
    pub name: Seq<char>,
    pub setter: Seq<char>,
    pub ty: TypeShape,
    pub required: bool,
}

impl View for SlotSpec {
    type V = SlotShape;

    open spec fn view(&self) -> SlotShape {
        SlotShape {
            name: self.name@,
            setter: self.setter@,
            ty: self.ty@,
            required: self.required,
        }
    }
}

/// The shape of the builder of one record.
#[derive(Debug, PartialEq, Eq)]
pub struct BuilderSpec {
    /// The name of the record that the builder assembles.
    pub record_name: String,
    /// The name of the builder type.
    pub builder_name: String,
    /// One slot per field, in declaration order.
    pub slots: Vec<SlotSpec>,
}

/// The mathematical value of a [`BuilderSpec`].
pub struct BuilderShape {
    pub record_name: Seq<char>,
    pub builder_name: Seq<char>,
    pub slots: Seq<SlotShape>,
}

/// The views of `slots`, in order.
pub open spec fn slot_shapes(slots: Seq<SlotSpec>) -> Seq<SlotShape> {
    Seq::new(slots.len(), |i: int| slots[i]@)
}

impl View for BuilderSpec {
    type V = BuilderShape;

    open spec fn view(&self) -> BuilderShape {
        BuilderShape {
            record_name: self.record_name@,
            builder_name: self.builder_name@,
            slots: slot_shapes(self.slots@),
        }
    }
}

/// The slot of a field: same name and type, filled by the field's setter, and
/// required unless the field may be absent.
pub open spec fn slot_of(field: FieldShape) -> SlotShape {
    SlotShape {
        name: field.name,
        setter: setter_name_of(field.name),
        ty: field.ty,
        required: !field.optional,
    }
}

/// The builder of a record: named after it, with the slot of each field in
/// declaration order.
pub open spec fn builder_shape_of(record: RecordShape) -> BuilderShape {
    BuilderShape {
        record_name: record.name,
        builder_name: builder_name_of(record.name),
        slots: Seq::new(record.fields.len(), |i: int| slot_of(record.fields[i])),
    }
}

/// The slot of one field.
pub fn derive_slot(field: &FieldDescriptor) -> (slot: SlotSpec)
    ensures
        slot@ == slot_of(field@),
{
    SlotSpec {
        name: field.name.clone(),
        setter: setter_name(field.name.as_str()),
        ty: field.ty.clone(),
        required: !field.optional,
    }
}

/// Derives the shape of the builder of `descriptor`.
pub fn derive_spec(descriptor: &TypeDescriptor) -> (spec: BuilderSpec)
    ensures
        spec@ == builder_shape_of(descriptor@),
{
    let mut slots: Vec<SlotSpec> = Vec::new();
    let mut i: usize = 0;
    while i < descriptor.len()
        invariant
            i <= descriptor@.fields.len(),
            slots@.len() == i,
            forall|k: int| 0 <= k < i ==> slots@[k]@ == slot_of(descriptor@.fields[k]),
        decreases descriptor@.fields.len() - i,
    {
        slots.push(derive_slot(descriptor.field(i)));
        i = i + 1;
    }
    let spec = BuilderSpec {
        record_name: descriptor.name().clone(),
        builder_name: builder_name(descriptor.name().as_str()),
        slots,
    };
    assert(spec@.slots =~= builder_shape_of(descriptor@).slots);
    spec
}

} // verus!
