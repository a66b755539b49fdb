//! The synthesizer: from a record's description to the code of its builder.
//!
//! Generation either succeeds as a whole or fails as a whole. Every
//! identifier is checked, and the builder's name is looked up in the target
//! scope, before any text is emitted.

use crate::descriptor::{FieldShape, RecordShape, TypeDescriptor};
use crate::emit::{
    build_text, emit_build, emit_factory, emit_setter, emit_shape, factory_text, setter_text,
    shape_text,
};
use crate::ident::valid_identifier;
use crate::naming::{
    builder_name, builder_name_of, field_identifiers, fields_identifiers, identifiers,
    identifiers_of, judge, verdicts,
};
use crate::plan::{builder_shape_of, derive_spec, slot_of, BuilderShape, BuilderSpec};
use crate::search::{first_rejected, holds, lemma_position, position};
use vstd::prelude::*;

verus! {

/// Why no code was generated for a description.
#[derive(Debug, PartialEq, Eq)]
pub enum GenerationError {
    /// An identifier of the description is not valid in the target language.
    /// It carries that identifier.
    InvalidDescriptor(String),
    /// The target scope already holds an item with the builder's name. It
    /// carries that name.
    NameCollision(String),
}

/// The mathematical value of a [`GenerationError`].
pub enum GenerationFault {
    InvalidDescriptor(Seq<char>),
    NameCollision(Seq<char>),
}

impl View for GenerationError {
    type V = GenerationFault;

    open spec fn view(&self) -> GenerationFault {
        match self {
            GenerationError::InvalidDescriptor(name) => GenerationFault::InvalidDescriptor(name@),
            GenerationError::NameCollision(name) => GenerationFault::NameCollision(name@),
        }
    }
}

impl GenerationError {
    /// The identifier that the error is about.
    pub fn offending_name(&self) -> (name: &String)
        ensures
            self@ == GenerationFault::InvalidDescriptor(name@) || self@
                == GenerationFault::NameCollision(name@),
    {
        match self {
            GenerationError::InvalidDescriptor(name) => name,
            GenerationError::NameCollision(name) => name,
        }
    }
}

/// The code of one builder, in four units.
#[derive(Debug, PartialEq, Eq)]
pub struct GeneratedCode {
    /// The builder's data shape.
    pub shape: String,
    /// The factory operation on the record type.
    pub factory: String,
    /// One setter per field, in declaration order.
    pub setters: Vec<String>,
    /// The terminal build operation.
    pub build: String,
}

/// The mathematical value of a [`GeneratedCode`].
pub struct GeneratedShape {
    pub shape: Seq<char>,
    pub factory: Seq<char>,
    pub setters: Seq<Seq<char>>,
    pub build: Seq<char>,
}

impl View for GeneratedCode {
    type V = GeneratedShape;

    open spec fn view(&self) -> GeneratedShape {
        GeneratedShape {
            shape: self.shape@,
            factory: self.factory@,
            setters: self.setters.deep_view(),
            build: self.build@,
        }
    }
}

/// The code of the builder `builder`: its four units, with the setter of the
/// slot at each position at that position.
pub open spec fn generated(builder: BuilderShape) -> GeneratedShape {
    GeneratedShape {
        shape: shape_text(builder),
        factory: factory_text(builder),
        setters: Seq::new(
            builder.slots.len(),
            |i: int| setter_text(builder.builder_name, builder.slots[i]),
        ),
        build: build_text(builder),
    }
}

/// The first `count` of `units`, each followed by an empty line.
pub open spec fn joined(units: Seq<Seq<char>>, count: int) -> Seq<char>
    decreases count,
{
    if count <= 0 {
        Seq::empty()
    } else {
        joined(units, count - 1) + units[count - 1] + "\n"@
    }
}

/// The source text of `code`: the data shape, the factory, the setters in
/// order and the build operation, with an empty line between units.
pub open spec fn source_text(code: GeneratedShape) -> Seq<char> {
    code.shape + "\n"@ + code.factory + "\n"@ + joined(code.setters, code.setters.len() as int)
        + code.build
}

/// What stands in the way of generation, given the identifiers `names` of a
/// description, the verdict on each in `answers`, the builder's name and the
/// names already in the target scope: the first identifier with a negative
/// verdict; failing that, the builder's name where the scope holds it.
pub open spec fn fault(
    names: Seq<Seq<char>>,
    answers: Seq<bool>,
    builder: Seq<char>,
    scope: Seq<Seq<char>>,
) -> Option<GenerationFault> {
    let first = position(answers, false);
    if first < answers.len() && first < names.len() {
        Some(GenerationFault::InvalidDescriptor(names[first]))
    } else if scope.contains(builder) {
        Some(GenerationFault::NameCollision(builder))
    } else {
        None
    }
}

/// The outcome of generation for `record` in a target scope that holds the
/// names `scope`.
pub open spec fn derivation(record: RecordShape, scope: Seq<Seq<char>>) -> Result<
    GeneratedShape,
    GenerationFault,
> {
    match fault(
        identifiers(record),
        verdicts(identifiers(record)),
        builder_name_of(record.name),
        scope,
    ) {
        Some(reason) => Err(reason),
        None => Ok(generated(builder_shape_of(record))),
    }
}

/// Generation is a function of the record and the scope alone: any two
/// outcomes for the same record and the same scope are equal, and where they
/// are code, their source text is the same character for character.
pub proof fn lemma_derive_deterministic(
    record: RecordShape,
    scope: Seq<Seq<char>>,
    first: Result<GeneratedShape, GenerationFault>,
    second: Result<GeneratedShape, GenerationFault>,
)
    requires
        first == derivation(record, scope),
        second == derivation(record, scope),
    ensures
        first == second,
        first is Ok ==> source_text(first->Ok_0) == source_text(second->Ok_0),
{
}

/// Where code is generated, it holds one setter per field, and the setter at
/// each position is that of the field declared at that position.
pub proof fn lemma_emission_order(record: RecordShape, scope: Seq<Seq<char>>)
    requires
        derivation(record, scope) is Ok,
    ensures
        derivation(record, scope)->Ok_0.setters.len() == record.fields.len(),
        forall|i: int|
            0 <= i < record.fields.len() ==> derivation(record, scope)->Ok_0.setters[i]
                == setter_text(builder_name_of(record.name), slot_of(record.fields[i])),
{
}

/// The identifiers of the first `count` fields start with those of the first
/// `fewer` fields, and go on with the name of the field after them.
proof fn lemma_identifiers_grow(fields: Seq<FieldShape>, fewer: int, count: int)
    requires
        0 <= fewer < count <= fields.len(),
    ensures
        fields_identifiers(fields, fewer).len() < fields_identifiers(fields, count).len(),
        fields_identifiers(fields, count).subrange(
            0,
            fields_identifiers(fields, fewer).len() as int,
        ) == fields_identifiers(fields, fewer),
        fields_identifiers(fields, count)[fields_identifiers(fields, fewer).len() as int]
            == fields[fewer].name,
    decreases count,
{
    let short = fields_identifiers(fields, fewer);
    let long = fields_identifiers(fields, count);
    let previous = fields_identifiers(fields, count - 1);
    assert(long == previous + field_identifiers(fields[count - 1]));
    if fewer == count - 1 {
        assert(long.subrange(0, short.len() as int) =~= short);
    } else {
        lemma_identifiers_grow(fields, fewer, count - 1);
        assert(long.subrange(0, short.len() as int) =~= previous.subrange(0, short.len() as int));
    }
}

/// A record with a field whose name is not a valid identifier gets no code.
/// Generation fails with `InvalidDescriptor`, which carries an identifier of
/// the record that is not valid; where every identifier checked before the
/// field's name is valid, it carries that name.
pub proof fn lemma_invalid_field_rejected(record: RecordShape, scope: Seq<Seq<char>>, index: int)
    requires
        0 <= index < record.fields.len(),
        !valid_identifier(record.fields[index].name),
    ensures
        derivation(record, scope) matches Err(GenerationFault::InvalidDescriptor(name))
            && !valid_identifier(name) && identifiers(record).contains(name),
        (forall|k: int|
            0 <= k < 2 + fields_identifiers(record.fields, index).len() ==> valid_identifier(
                #[trigger] identifiers(record)[k],
            )) ==> derivation(record, scope) == Err::<GeneratedShape, GenerationFault>(
            GenerationFault::InvalidDescriptor(record.fields[index].name),
        ),
{
    let names = identifiers(record);
    let answers = verdicts(names);
    let at = 2 + fields_identifiers(record.fields, index).len() as int;
    lemma_identifiers_grow(record.fields, index, record.fields.len() as int);
    assert(names[at] == fields_identifiers(record.fields, record.fields.len() as int)[at - 2]);
    assert(names[at] == record.fields[index].name);
    assert(answers[at] == false);
    lemma_position(answers, false);
    let first = position(answers, false);
    assert(first <= at) by {
        if first > at {
            assert(answers[at] != false);
        }
    }
    assert(!valid_identifier(names[first]));
    if forall|k: int| 0 <= k < at ==> valid_identifier(#[trigger] names[k]) {
        if first < at {
            assert(valid_identifier(names[first]));
        }
        assert(first == at);
    }
}

impl GeneratedCode {
    /// The source text of the four units, in emission order.
    pub fn render(&self) -> (text: String)
        ensures
            text@ == source_text(self@),
    {
        let mut setters = String::new();
        let mut i: usize = 0;
        while i < self.setters.len()
            invariant
                i <= self.setters.len(),
                setters@ == joined(self.setters.deep_view(), i as int),
            decreases self.setters.len() - i,
        {
            assert(self.setters.deep_view()[i as int] == self.setters@[i as int]@);
            let ghost before = setters@;
            setters.append(self.setters[i].as_str());
            setters.append("\n");
            assert(setters@ == before + self.setters@[i as int]@ + "\n"@);
            i = i + 1;
        }
        let mut text = self.shape.clone();
        text.append("\n");
        text.append(self.factory.as_str());
        text.append("\n");
        text.append(setters.as_str());
        text.append(self.build.as_str());
        text
    }
}

/// Decides whether generation may go ahead, from the identifiers of a
/// description and the verdict on each of them.
pub fn find_fault(
    names: &Vec<String>,
    answers: &Vec<bool>,
    builder: &str,
    scope: &Vec<String>,
) -> (found: Option<GenerationError>)
    ensures
        match found {
            Some(error) => fault(names.deep_view(), answers@, builder@, scope.deep_view()) == Some(
                error@,
            ),
            None => fault(names.deep_view(), answers@, builder@, scope.deep_view()) is None,
        },
{
    match first_rejected(answers) {
        Some(index) => {
            if index < names.len() {
                assert(names.deep_view()[index as int] == names@[index as int]@);
                return Some(GenerationError::InvalidDescriptor(names[index].clone()));
            }
        },
        None => {},
    }
    if holds(scope, builder) {
        Some(GenerationError::NameCollision(builder.to_owned()))
    } else {
        None
    }
}

/// Emits the four units of the builder that `spec` describes.
pub fn generate(spec: &BuilderSpec) -> (code: GeneratedCode)
    ensures
        code@ == generated(spec@),
{
    let mut setters: Vec<String> = Vec::new();
    let mut i: usize = 0;
    while i < spec.slots.len()
        invariant
            i <= spec.slots.len(),
            setters@.len() == i,
            forall|k: int|
                0 <= k < i ==> setters@[k]@ == setter_text(spec@.builder_name, spec@.slots[k]),
        decreases spec.slots.len() - i,
    {
        setters.push(emit_setter(spec.builder_name.as_str(), &spec.slots[i]));
        i = i + 1;
    }
    let code = GeneratedCode {
        shape: emit_shape(spec),
        factory: emit_factory(spec),
        setters,
        build: emit_build(spec),
    };
    assert(code@.setters =~= generated(spec@).setters);
    code
}

/// Generates the code of the builder of `descriptor` for a target scope that
/// already holds the names in `scope`.
///
/// Fails with `InvalidDescriptor` on the first identifier, in checking order,
/// that is not valid in the target language, and with `NameCollision` where
/// all are valid and the scope holds the builder's name. The outcome depends
/// on the two arguments alone.
pub fn derive(descriptor: &TypeDescriptor, scope: &Vec<String>) -> (outcome: Result<
    GeneratedCode,
    GenerationError,
>)
    ensures
        match outcome {
            Ok(code) => derivation(descriptor@, scope.deep_view()) == Ok::<
                GeneratedShape,
                GenerationFault,
            >(code@),
            Err(error) => derivation(descriptor@, scope.deep_view()) == Err::<
                GeneratedShape,
                GenerationFault,
            >(error@),
        },
{
    let names = identifiers_of(descriptor);
    let answers = judge(&names);
    let builder = builder_name(descriptor.name().as_str());
    match find_fault(&names, &answers, builder.as_str(), scope) {
        Some(error) => Err(error),
        None => {
            let spec = derive_spec(descriptor);
            Ok(generate(&spec))
        },
    }
}

} // verus!
