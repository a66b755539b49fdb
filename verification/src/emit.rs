//! The source text of a builder, unit by unit.
//!
//! Every function here has a spec function of the same structure beside it,
//! which gives the emitted text character for character.

use crate::descriptor::{FieldType, TypeShape};
use crate::plan::{BuilderShape, BuilderSpec, SlotShape, SlotSpec};
use vstd::prelude::*;

verus! {

/// The spelling of a field type in emitted code.
pub open spec fn type_text(ty: TypeShape) -> Seq<char>
    decreases ty,
{
    match ty {
        TypeShape::Bool => "bool"@,
        TypeShape::Int => "i64"@,
        TypeShape::Text => "String"@,
        TypeShape::List(element) => "Vec<"@ + type_text(*element) + ">"@,
        TypeShape::Named(name) => name,
    }
}

/// The declaration of one slot inside the builder's data shape.
pub open spec fn slot_line(slot: SlotShape) -> Seq<char> {
    "    "@ + slot.name + ": Option<"@ + type_text(slot.ty) + ">,\n"@
}

/// The declarations of the first `count` slots.
pub open spec fn slot_lines(slots: Seq<SlotShape>, count: int) -> Seq<char>
    decreases count,
{
    if count <= 0 {
        Seq::empty()
    } else {
        slot_lines(slots, count - 1) + slot_line(slots[count - 1])
    }
}

/// The builder's data shape: a struct with one optional slot per field.
pub open spec fn shape_text(builder: BuilderShape) -> Seq<char> {
    "pub struct "@ + builder.builder_name + " {\n"@ + slot_lines(
        builder.slots,
        builder.slots.len() as int,
    ) + "}\n"@
}

/// The line of the factory that leaves one slot unset.
pub open spec fn unset_line(slot: SlotShape) -> Seq<char> {
    "            "@ + slot.name + ": None,\n"@
}

/// The factory's lines for the first `count` slots.
pub open spec fn unset_lines(slots: Seq<SlotShape>, count: int) -> Seq<char>
    decreases count,
{
    if count <= 0 {
        Seq::empty()
    } else {
        unset_lines(slots, count - 1) + unset_line(slots[count - 1])
    }
}

/// The factory: an operation on the record type that returns a builder with
/// every slot unset.
pub open spec fn factory_text(builder: BuilderShape) -> Seq<char> {
    "impl "@ + builder.record_name + " {\n    pub fn builder() -> "@ + builder.builder_name
        + " {\n        "@ + builder.builder_name + " {\n"@ + unset_lines(
        builder.slots,
        builder.slots.len() as int,
    ) + "        }\n    }\n}\n"@
}

/// The setter of one slot: it stores the value it is given, whatever the slot
/// held before, and hands the builder back.
pub open spec fn setter_text(builder_name: Seq<char>, slot: SlotShape) -> Seq<char> {
    "impl "@ + builder_name + " {\n    pub fn "@ + slot.setter + "(&mut self, value: "@
        + type_text(slot.ty) + ") -> &mut Self {\n        self."@ + slot.name
        + " = Some(value);\n        self\n    }\n}\n"@
}

/// The lines of the build operation that report one slot as missing when it is
/// required and unset. A slot that may stay unset is not examined.
pub open spec fn check_lines_of(slot: SlotShape) -> Seq<char> {
    if slot.required {
        "        if self."@ + slot.name + ".is_none() {\n            missing.push(\""@ + slot.name
            + "\");\n        }\n"@
    } else {
        Seq::empty()
    }
}

/// The examinations of the first `count` slots.
pub open spec fn check_lines(slots: Seq<SlotShape>, count: int) -> Seq<char>
    decreases count,
{
    if count <= 0 {
        Seq::empty()
    } else {
        check_lines(slots, count - 1) + check_lines_of(slots[count - 1])
    }
}

/// The line of the build operation that gives one field of the record its
/// value: the stored value of a required slot, the slot itself otherwise.
pub open spec fn take_line(slot: SlotShape) -> Seq<char> {
    if slot.required {
        "            "@ + slot.name + ": self."@ + slot.name + ".clone().unwrap(),\n"@
    } else {
        "            "@ + slot.name + ": self."@ + slot.name + ".clone(),\n"@
    }
}

/// The record's fields for the first `count` slots.
pub open spec fn take_lines(slots: Seq<SlotShape>, count: int) -> Seq<char>
    decreases count,
{
    if count <= 0 {
        Seq::empty()
    } else {
        take_lines(slots, count - 1) + take_line(slots[count - 1])
    }
}

/// The terminal build operation: it examines every slot, fails with the names
/// of all required slots that are unset, and otherwise constructs the record
/// from the stored values. It leaves the builder as it was.
pub open spec fn build_text(builder: BuilderShape) -> Seq<char> {
    "impl "@ + builder.builder_name + " {\n    pub fn build(&self) -> Result<"@
        + builder.record_name
        + ", Vec<&'static str>> {\n        let mut missing = Vec::new();\n"@ + check_lines(
        builder.slots,
        builder.slots.len() as int,
    ) + "        if !missing.is_empty() {\n            return Err(missing);\n        }\n        Ok("@
        + builder.record_name + " {\n"@ + take_lines(builder.slots, builder.slots.len() as int)
        + "        })\n    }\n}\n"@
}

/// Spells out a field type.
pub fn emit_type(ty: &FieldType) -> (text: String)
    ensures
        text@ == type_text(ty@),
    decreases ty,
{
    match ty {
        FieldType::Bool => String::from_str("bool"),
        FieldType::Int => String::from_str("i64"),
        FieldType::Text => String::from_str("String"),
        FieldType::List(element) => {
            let inner: &FieldType = element;
            let mut text = String::from_str("Vec<");
            text.append(emit_type(inner).as_str());
            text.append(">");
            text
        },
        FieldType::Named(name) => name.clone(),
    }
}

/// Emits the builder's data shape.
pub fn emit_shape(spec: &BuilderSpec) -> (text: String)
    ensures
        text@ == shape_text(spec@),
{
    let mut lines = String::new();
    let mut i: usize = 0;
    while i < spec.slots.len()
        invariant
            i <= spec.slots.len(),
            lines@ == slot_lines(spec@.slots, i as int),
        decreases spec.slots.len() - i,
    {
        let slot = &spec.slots[i];
        let mut line = String::from_str("    ");
        line.append(slot.name.as_str());
        line.append(": Option<");
        line.append(emit_type(&slot.ty).as_str());
        line.append(">,\n");
        assert(line@ == slot_line(spec@.slots[i as int]));
        lines.append(line.as_str());
        i = i + 1;
    }
    let mut text = String::from_str("pub struct ");
    text.append(spec.builder_name.as_str());
    text.append(" {\n");
    text.append(lines.as_str());
    text.append("}\n");
    text
}

/// Emits the factory operation.
pub fn emit_factory(spec: &BuilderSpec) -> (text: String)
    ensures
        text@ == factory_text(spec@),
{
    let mut lines = String::new();
    let mut i: usize = 0;
    while i < spec.slots.len()
        invariant
            i <= spec.slots.len(),
            lines@ == unset_lines(spec@.slots, i as int),
        decreases spec.slots.len() - i,
    {
        let slot = &spec.slots[i];
        let mut line = String::from_str("            ");
        line.append(slot.name.as_str());
        line.append(": None,\n");
        assert(line@ == unset_line(spec@.slots[i as int]));
        lines.append(line.as_str());
        i = i + 1;
    }
    let mut text = String::from_str("impl ");
    text.append(spec.record_name.as_str());
    text.append(" {\n    pub fn builder() -> ");
    text.append(spec.builder_name.as_str());
    text.append(" {\n        ");
    text.append(spec.builder_name.as_str());
    text.append(" {\n");
    text.append(lines.as_str());
    text.append("        }\n    }\n}\n");
    text
}

/// Emits the setter of one slot of the builder called `builder_name`.
pub fn emit_setter(builder_name: &str, slot: &SlotSpec) -> (text: String)
    ensures
        text@ == setter_text(builder_name@, slot@),
{
    let mut text = String::from_str("impl ");
    text.append(builder_name);
    text.append(" {\n    pub fn ");
    text.append(slot.setter.as_str());
    text.append("(&mut self, value: ");
    text.append(emit_type(&slot.ty).as_str());
    text.append(") -> &mut Self {\n        self.");
    text.append(slot.name.as_str());
    text.append(" = Some(value);\n        self\n    }\n}\n");
    text
}

/// Emits the examination of one slot by the build operation.
fn emit_check(slot: &SlotSpec) -> (text: String)
    ensures
        text@ == check_lines_of(slot@),
{
    if slot.required {
        let mut text = String::from_str("        if self.");
        text.append(slot.name.as_str());
        text.append(".is_none() {\n            missing.push(\"");
        text.append(slot.name.as_str());
        text.append("\");\n        }\n");
        text
    } else {
        String::new()
    }
}

/// Emits the line by which the build operation fills one field.
fn emit_take(slot: &SlotSpec) -> (text: String)
    ensures
        text@ == take_line(slot@),
{
    let mut text = String::from_str("            ");
    text.append(slot.name.as_str());
    text.append(": self.");
    text.append(slot.name.as_str());
    if slot.required {
        text.append(".clone().unwrap(),\n");
    } else {
        text.append(".clone(),\n");
    }
    text
}

/// Emits the terminal build operation.
pub fn emit_build(spec: &BuilderSpec) -> (text: String)
    ensures
        text@ == build_text(spec@),
{
    let mut checks = String::new();
    let mut takes = String::new();
    let mut i: usize = 0;
    while i < spec.slots.len()
        invariant
            i <= spec.slots.len(),
            checks@ == check_lines(spec@.slots, i as int),
            takes@ == take_lines(spec@.slots, i as int),
        decreases spec.slots.len() - i,
    {
        let slot = &spec.slots[i];
        assert(slot@ == spec@.slots[i as int]);
        checks.append(emit_check(slot).as_str());
        takes.append(emit_take(slot).as_str());
        i = i + 1;
    }
    let mut text = String::from_str("impl ");
    text.append(spec.builder_name.as_str());
    text.append(" {\n    pub fn build(&self) -> Result<");
    text.append(spec.record_name.as_str());
    text.append(", Vec<&'static str>> {\n        let mut missing = Vec::new();\n");
    text.append(checks.as_str());
    text.append(
        "        if !missing.is_empty() {\n            return Err(missing);\n        }\n        Ok(",
    );
    text.append(spec.record_name.as_str());
    text.append(" {\n");
    text.append(takes.as_str());
    text.append("        })\n    }\n}\n");
    text
}

} // verus!
