//! The identifiers that emitted code declares or names, and their validation.

use crate::descriptor::{FieldDescriptor, FieldShape, FieldType, RecordShape, TypeDescriptor, TypeShape};
use crate::ident::{is_identifier, valid_identifier};
use crate::search::{first_rejected, position};
use vstd::prelude::*;

verus! {

/// The name of the builder of the record `record_name`.
pub open spec fn builder_name_of(record_name: Seq<char>) -> Seq<char> {
    record_name + "Builder"@
}

/// The name of the setter of the field `field`.
pub open spec fn setter_name_of(field: Seq<char>) -> Seq<char> {
    "set_"@ + field
}

/// The record type that `ty` refers to by name, directly or as the element of
/// a list.
pub open spec fn named_in(ty: TypeShape) -> Option<Seq<char>>
    decreases ty,
{
    match ty {
        TypeShape::Named(name) => Some(name),
        TypeShape::List(element) => named_in(*element),
        _ => None,
    }
}

/// The identifiers that one field brings into emitted code: its own name, the
/// name of its setter, and the record type that its type names, if any.
pub open spec fn field_identifiers(field: FieldShape) -> Seq<Seq<char>> {
    match named_in(field.ty) {
        Some(name) => seq![field.name, setter_name_of(field.name), name],
        None => seq![field.name, setter_name_of(field.name)],
    }
}

/// The identifiers of the first `count` fields, field after field.
pub open spec fn fields_identifiers(fields: Seq<FieldShape>, count: int) -> Seq<Seq<char>>
    decreases count,
{
    if count <= 0 {
        Seq::empty()
    } else {
        fields_identifiers(fields, count - 1) + field_identifiers(fields[count - 1])
    }
}

/// Every identifier that the code emitted for `record` declares or names, in
/// the order in which they are checked: the record's name, the builder's
/// name, then the identifiers of each field in declaration order.
pub open spec fn identifiers(record: RecordShape) -> Seq<Seq<char>> {
    seq![record.name, builder_name_of(record.name)] + fields_identifiers(
        record.fields,
        record.fields.len() as int,
    )
}

/// For each of `names`, whether it is a valid identifier.
pub open spec fn verdicts(names: Seq<Seq<char>>) -> Seq<bool> {
    Seq::new(names.len(), |i: int| valid_identifier(names[i]))
}

/// The position in `identifiers(record)` of the first identifier that is not
/// valid, or the length of that sequence when all are valid.
pub open spec fn first_invalid(record: RecordShape) -> int {
    position(verdicts(identifiers(record)), false)
}

/// The name of the builder of the record `record_name`: the record's name
/// followed by `Builder`.
pub fn builder_name(record_name: &str) -> (name: String)
    ensures
        name@ == builder_name_of(record_name@),
{
    let mut name = record_name.to_owned();
    name.append("Builder");
    name
}

/// The name of the setter of `field`: `set_` followed by the field's name.
pub fn setter_name(field: &str) -> (name: String)
    ensures
        name@ == setter_name_of(field@),
{
    let mut name = String::from_str("set_");
    name.append(field);
    name
}

/// The name of the record type that `ty` refers to, if it refers to one.
pub fn named_type(ty: &FieldType) -> (name: Option<String>)
    ensures
        match name {
            Some(n) => named_in(ty@) == Some(n@),
            None => named_in(ty@) is None,
        },
    decreases ty,
{
    match ty {
        FieldType::Named(name) => Some(name.clone()),
        FieldType::List(element) => {
            let inner: &FieldType = element;
            named_type(inner)
        },
        _ => None,
    }
}

/// Appends the identifiers of `field` to `out`.
fn push_field_identifiers(field: &FieldDescriptor, out: &mut Vec<String>)
    ensures
        final(out).deep_view() == old(out).deep_view() + field_identifiers(field@),
{
    out.push(field.name.clone());
    out.push(setter_name(field.name.as_str()));
    match named_type(&field.ty) {
        Some(name) => {
            out.push(name);
        },
        None => {},
    }
    assert(out.deep_view() =~= old(out).deep_view() + field_identifiers(field@));
}

/// The identifiers of `descriptor`, in checking order.
pub fn identifiers_of(descriptor: &TypeDescriptor) -> (names: Vec<String>)
    ensures
        names.deep_view() == identifiers(descriptor@),
{
    let mut names: Vec<String> = Vec::new();
    names.push(descriptor.name().clone());
    names.push(builder_name(descriptor.name().as_str()));
    assert(names.deep_view() =~= seq![descriptor@.name, builder_name_of(descriptor@.name)]);
    let ghost head = names.deep_view();
    let mut i: usize = 0;
    while i < descriptor.len()
        invariant
            i <= descriptor@.fields.len(),
            head == seq![descriptor@.name, builder_name_of(descriptor@.name)],
            names.deep_view() == head + fields_identifiers(descriptor@.fields, i as int),
        decreases descriptor@.fields.len() - i,
    {
        push_field_identifiers(descriptor.field(i), &mut names);
        assert(names.deep_view() =~= head + fields_identifiers(
            descriptor@.fields,
            i as int + 1,
        ));
        i = i + 1;
    }
    names
}

/// Asks, for each of `names` in turn, whether it is a valid identifier.
pub fn judge(names: &Vec<String>) -> (answers: Vec<bool>)
    ensures
        answers@ == verdicts(names.deep_view()),
{
    let mut answers: Vec<bool> = Vec::new();
    let mut i: usize = 0;
    while i < names.len()
        invariant
            i <= names.len(),
            answers@.len() == i,
            forall|k: int| 0 <= k < i ==> answers@[k] == valid_identifier(names.deep_view()[k]),
        decreases names.len() - i,
    {
        let accepted = is_identifier(names[i].as_str());
        assert(names.deep_view()[i as int] == names@[i as int]@);
        answers.push(accepted);
        i = i + 1;
    }
    assert(answers@ =~= verdicts(names.deep_view()));
    answers
}

/// The first identifier of `descriptor`, in checking order, that is not a
/// valid identifier of the target language; `None` when all are valid.
pub fn first_offender(descriptor: &TypeDescriptor) -> (offender: Option<String>)
    ensures
        match offender {
            Some(name) => first_invalid(descriptor@) < identifiers(descriptor@).len() && name@
                == identifiers(descriptor@)[first_invalid(descriptor@)],
            None => first_invalid(descriptor@) == identifiers(descriptor@).len(),
        },
{
    let names = identifiers_of(descriptor);
    let answers = judge(&names);
    match first_rejected(&answers) {
        Some(index) => {
            assert(names.deep_view()[index as int] == names@[index as int]@);
            Some(names[index].clone())
        },
        None => None,
    }
}

} // verus!
