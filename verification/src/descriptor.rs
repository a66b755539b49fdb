//! The structural description of a record type: its name and its fields in
//! declaration order.

use crate::search::{position, position_from};
use vstd::prelude::*;

verus! {

/// The type of a field, as far as the synthesizer distinguishes types.
#[derive(Debug, PartialEq, Eq)]
pub enum FieldType {
    /// A truth value.
    Bool,
    /// A signed 64-bit integer.
    Int,
    /// An owned string.
    Text,
    /// An owned sequence of elements of one type.
    List(Box<FieldType>),
    /// Another record type, referred to by its name.
    Named(String),
}

/// The mathematical value of a [`FieldType`].
pub enum TypeShape {
    Bool,
    Int,
    Text,
    List(Box<TypeShape>),
    Named(Seq<char>),
}

/// The shape of a field type, by recursion over its structure.
pub open spec fn type_shape(ty: FieldType) -> TypeShape
    decreases ty,
{
    match ty {
        FieldType::Bool => TypeShape::Bool,
        FieldType::Int => TypeShape::Int,
        FieldType::Text => TypeShape::Text,
        FieldType::List(element) => TypeShape::List(Box::new(type_shape(*element))),
        FieldType::Named(name) => TypeShape::Named(name@),
    }
}

impl View for FieldType {
    type V = TypeShape;

    open spec fn view(&self) -> TypeShape {
        type_shape(*self)
    }
}

impl Clone for FieldType {
    fn clone(&self) -> (copy: FieldType)
        ensures
            copy@ == self@,
        decreases self,
    {
        match self {
            FieldType::Bool => FieldType::Bool,
            FieldType::Int => FieldType::Int,
            FieldType::Text => FieldType::Text,
            FieldType::List(element) => {
                let inner: &FieldType = element;
                FieldType::List(Box::new(inner.clone()))
            },
            FieldType::Named(name) => FieldType::Named(name.clone()),
        }
    }
}

/// One declared field of a record type.
#[derive(Debug, PartialEq, Eq)]
pub struct FieldDescriptor {
    /// The field's identifier.
    pub name: String,
    /// The type of the values that the field holds.
    pub ty: FieldType,
    /// Whether the record declares the field as one that may be absent.
    pub optional: bool,
}

/// The mathematical value of a [`FieldDescriptor`].
pub struct FieldShape {
    pub name: Seq<char>,
    pub ty: TypeShape,
    pub optional: bool,
}

impl View for FieldDescriptor {
    type V = FieldShape;

    open spec fn view(&self) -> FieldShape {
        FieldShape { name: self.name@, ty: self.ty@, optional: self.optional }
    }
}

impl Clone for FieldDescriptor {
    fn clone(&self) -> (copy: FieldDescriptor)
        ensures
            copy@ == self@,
    {
        FieldDescriptor {
            name: self.name.clone(),
            ty: self.ty.clone(),
            optional: self.optional,
        }
    }
}

impl FieldDescriptor {
    /// A required field.
    pub fn required(name: String, ty: FieldType) -> (field: FieldDescriptor)
        ensures
            field@ == (FieldShape { name: name@, ty: ty@, optional: false }),
    {
        FieldDescriptor { name, ty, optional: false }
    }

    /// A field that may be absent from the record.
    pub fn optional(name: String, ty: FieldType) -> (field: FieldDescriptor)
        ensures
            field@ == (FieldShape { name: name@, ty: ty@, optional: true }),
    {
        FieldDescriptor { name, ty, optional: true }
    }
}

/// The mathematical value of a [`TypeDescriptor`].
pub struct RecordShape {
    pub name: Seq<char>,
    pub fields: Seq<FieldShape>,
}

/// The names of `fields`, in order.
pub open spec fn field_names(fields: Seq<FieldShape>) -> Seq<Seq<char>> {
    Seq::new(fields.len(), |i: int| fields[i].name)
}

/// No two of `names` are equal.
pub open spec fn distinct(names: Seq<Seq<char>>) -> bool {
    forall|i: int, j: int| 0 <= i < j < names.len() ==> names[i] != names[j]
}

/// The views of `fields`, in order.
pub open spec fn field_shapes(fields: Seq<FieldDescriptor>) -> Seq<FieldShape> {
    Seq::new(fields.len(), |i: int| fields[i]@)
}

/// A record type: a name and an ordered list of fields whose names differ
/// from one another.
#[derive(Debug, PartialEq, Eq)]
pub struct TypeDescriptor {
    name: String,
    fields: Vec<FieldDescriptor>,
}

impl View for TypeDescriptor {
    type V = RecordShape;

    closed spec fn view(&self) -> RecordShape {
        RecordShape { name: self.name@, fields: field_shapes(self.fields@) }
    }
}

impl TypeDescriptor {
    #[verifier::type_invariant]
    spec fn names_differ(self) -> bool {
        distinct(field_names(field_shapes(self.fields@)))
    }

    /// Describes the record `name` with the given fields, in their order of
    /// declaration. A list in which two fields share a name describes no
    /// record, and `None` is returned for it.
    pub fn new(name: String, fields: Vec<FieldDescriptor>) -> (made: Option<TypeDescriptor>)
        ensures
            made is Some <==> distinct(field_names(field_shapes(fields@))),
            made matches Some(descriptor) ==> descriptor@ == (RecordShape {
                name: name@,
                fields: field_shapes(fields@),
            }),
    {
        let ghost names = field_names(field_shapes(fields@));
        let mut i: usize = 0;
        while i < fields.len()
            invariant
                i <= fields.len(),
                names == field_names(field_shapes(fields@)),
                forall|a: int, b: int| 0 <= a < b < i ==> names[a] != names[b],
            decreases fields.len() - i,
        {
            let mut j: usize = 0;
            while j < i
                invariant
                    j <= i < fields.len(),
                    names == field_names(field_shapes(fields@)),
                    forall|a: int| 0 <= a < j ==> names[a] != names[i as int],
                decreases i - j,
            {
                if fields[j].name == fields[i].name {
                    assert(names[j as int] == names[i as int]);
                    return None;
                }
                j = j + 1;
            }
            i = i + 1;
        }
        Some(TypeDescriptor { name, fields })
    }

    /// The record's name.
    pub fn name(&self) -> (name: &String)
        ensures
            name@ == self@.name,
    {
        &self.name
    }

    /// The number of fields.
    pub fn len(&self) -> (n: usize)
        ensures
            n == self@.fields.len(),
    {
        self.fields.len()
    }

    /// The field at position `index` of the declaration.
    pub fn field(&self, index: usize) -> (field: &FieldDescriptor)
        requires
            index < self@.fields.len(),
        ensures
            field@ == self@.fields[index as int],
    {
        &self.fields[index]
    }

    /// The position of the field called `name`, if the record has one.
    pub fn find(&self, name: &str) -> (found: Option<usize>)
        ensures
            match found {
                Some(index) => index == position(field_names(self@.fields), name@) && index
                    < self@.fields.len(),
                None => position(field_names(self@.fields), name@) == self@.fields.len(),
            },
    {
        let ghost names = field_names(self@.fields);
        let wanted = name.to_owned();
        let mut i: usize = 0;
        while i < self.fields.len()
            invariant
                i <= self.fields.len(),
                names == field_names(self@.fields),
                wanted@ == name@,
                position(names, name@) == position_from(names, name@, i as int),
            decreases self.fields.len() - i,
        {
            if self.fields[i].name == wanted {
                assert(names[i as int] == name@);
                return Some(i);
            }
            assert(names[i as int] != name@);
            i = i + 1;
        }
        None
    }
}

/// In a well-formed record no two fields share a name.
pub open spec fn well_formed(record: RecordShape) -> bool {
    distinct(field_names(record.fields))
}

} // verus!
