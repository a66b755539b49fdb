//! A builder written out by hand: the one of the `Command` record.

use crate::descriptor::{
    field_names, field_shapes, type_shape, FieldDescriptor, FieldShape, FieldType, RecordShape,
    TypeDescriptor, TypeShape,
};
use crate::runtime::MissingFields;
use vstd::prelude::*;

verus! {

/// A process to launch.
#[derive(Debug, PartialEq, Eq)]
pub struct Command {
    pub executable: String,
    pub args: Vec<String>,
    pub env: Vec<String>,
    pub current_dir: String,
}

/// The mathematical value of a [`Command`].
pub struct CommandShape {
    pub executable: Seq<char>,
    pub args: Seq<Seq<char>>,
    pub env: Seq<Seq<char>>,
    pub current_dir: Seq<char>,
}

impl View for Command {
    type V = CommandShape;

    open spec fn view(&self) -> CommandShape {
        CommandShape {
            executable: self.executable@,
            args: self.args.deep_view(),
            env: self.env.deep_view(),
            current_dir: self.current_dir@,
        }
    }
}

/// The mathematical value of a [`CommandBuilder`]: what each slot holds.
pub struct CommandSlots {
    pub executable: Option<Seq<char>>,
    pub args: Option<Seq<Seq<char>>>,
    pub env: Option<Seq<Seq<char>>>,
    pub current_dir: Option<Seq<char>>,
}

impl CommandSlots {
    /// Every slot unset.
    pub open spec fn unset() -> CommandSlots {
        CommandSlots { executable: None, args: None, env: None, current_dir: None }
    }

    /// Every slot set, to the fields of `command`.
    pub open spec fn filled(command: CommandShape) -> CommandSlots {
        CommandSlots {
            executable: Some(command.executable),
            args: Some(command.args),
            env: Some(command.env),
            current_dir: Some(command.current_dir),
        }
    }

    /// Every slot is set.
    pub open spec fn complete(self) -> bool {
        self.executable is Some && self.args is Some && self.env is Some && self.current_dir
            is Some
    }

    /// The names of the unset slots, in declaration order.
    pub open spec fn missing(self) -> Seq<Seq<char>> {
        (if self.executable is None {
            seq!["executable"@]
        } else {
            Seq::empty()
        }) + (if self.args is None {
            seq!["args"@]
        } else {
            Seq::empty()
        }) + (if self.env is None {
            seq!["env"@]
        } else {
            Seq::empty()
        }) + (if self.current_dir is None {
            seq!["current_dir"@]
        } else {
            Seq::empty()
        })
    }
}

/// Assembles a [`Command`] field by field.
#[derive(Debug, PartialEq, Eq)]
pub struct CommandBuilder {
    executable: Option<String>,
    args: Option<Vec<String>>,
    env: Option<Vec<String>>,
    current_dir: Option<String>,
}

impl View for CommandBuilder {
    type V = CommandSlots;

    closed spec fn view(&self) -> CommandSlots {
        CommandSlots {
            executable: match self.executable {
                Some(text) => Some(text@),
                None => None,
            },
            args: match self.args {
                Some(texts) => Some(texts.deep_view()),
                None => None,
            },
            env: match self.env {
                Some(texts) => Some(texts.deep_view()),
                None => None,
            },
            current_dir: match self.current_dir {
                Some(text) => Some(text@),
                None => None,
            },
        }
    }
}

/// The description of the `Command` record: four required fields.
pub open spec fn command_record() -> RecordShape {
    RecordShape {
        name: "Command"@,
        fields: seq![
            FieldShape { name: "executable"@, ty: TypeShape::Text, optional: false },
            FieldShape {
                name: "args"@,
                ty: TypeShape::List(Box::new(TypeShape::Text)),
                optional: false,
            },
            FieldShape {
                name: "env"@,
                ty: TypeShape::List(Box::new(TypeShape::Text)),
                optional: false,
            },
            FieldShape { name: "current_dir"@, ty: TypeShape::Text, optional: false },
        ],
    }
}

impl Command {
    /// The description of this record, from which the synthesizer derives a
    /// builder of the same slots as [`CommandBuilder`].
    pub fn descriptor() -> (descriptor: TypeDescriptor)
        ensures
            descriptor@ == command_record(),
    {
        let mut fields: Vec<FieldDescriptor> = Vec::new();
        fields.push(FieldDescriptor::required(String::from_str("executable"), FieldType::Text));
        fields.push(
            FieldDescriptor::required(
                String::from_str("args"),
                FieldType::List(Box::new(FieldType::Text)),
            ),
        );
        fields.push(
            FieldDescriptor::required(
                String::from_str("env"),
                FieldType::List(Box::new(FieldType::Text)),
            ),
        );
        fields.push(FieldDescriptor::required(String::from_str("current_dir"), FieldType::Text));
        proof {
            reveal_strlit("executable");
            reveal_strlit("args");
            reveal_strlit("env");
            reveal_strlit("current_dir");
            reveal_with_fuel(type_shape, 3);
            let names = field_names(field_shapes(fields@));
            assert(names[0].len() == 10);
            assert(names[1].len() == 4);
            assert(names[2].len() == 3);
            assert(names[3].len() == 11);
            assert(field_shapes(fields@) =~= command_record().fields);
        }
        let made = TypeDescriptor::new(String::from_str("Command"), fields);
        made.unwrap()
    }

    /// A builder with every slot unset.
    pub fn builder() -> (builder: CommandBuilder)
        ensures
            builder@ == CommandSlots::unset(),
    {
        CommandBuilder { executable: None, args: None, env: None, current_dir: None }
    }
}

/// A record type that hands out its builder.
pub trait BuilderImpl {
    /// A builder with every slot unset.
    fn builder() -> (builder: CommandBuilder)
        ensures
            builder@ == CommandSlots::unset(),
    ;
}

impl BuilderImpl for Command {
    fn builder() -> (builder: CommandBuilder) {
        CommandBuilder { executable: None, args: None, env: None, current_dir: None }
    }
}

/// A copy of `texts`.
fn copy_texts(texts: &Vec<String>) -> (copy: Vec<String>)
    ensures
        copy.deep_view() == texts.deep_view(),
{
    let mut copy: Vec<String> = Vec::new();
    let mut i: usize = 0;
    while i < texts.len()
        invariant
            i <= texts.len(),
            copy@.len() == i,
            forall|k: int| 0 <= k < i ==> copy@[k]@ == texts@[k]@,
        decreases texts.len() - i,
    {
        copy.push(texts[i].clone());
        i = i + 1;
    }
    assert(copy.deep_view() =~= texts.deep_view());
    copy
}

impl CommandBuilder {
    /// Stores the executable, whatever the slot held before.
    pub fn executable(&mut self, executable: String) -> (chain: &mut Self)
        ensures
            chain@ == (CommandSlots { executable: Some(executable@), ..old(self)@ }),
            *final(self) == *final(chain),
    {
        self.executable = Some(executable);
        self
    }

    /// Stores the arguments, whatever the slot held before.
    pub fn args(&mut self, arguments: Vec<String>) -> (chain: &mut Self)
        ensures
            chain@ == (CommandSlots { args: Some(arguments.deep_view()), ..old(self)@ }),
            *final(self) == *final(chain),
    {
        self.args = Some(arguments);
        self
    }

    /// Stores the variables for the process, whatever the slot held before.
    pub fn env(&mut self, envs: Vec<String>) -> (chain: &mut Self)
        ensures
            chain@ == (CommandSlots { env: Some(envs.deep_view()), ..old(self)@ }),
            *final(self) == *final(chain),
    {
        self.env = Some(envs);
        self
    }

    /// Stores the working directory, whatever the slot held before.
    pub fn current_dir(&mut self, dir: String) -> (chain: &mut Self)
        ensures
            chain@ == (CommandSlots { current_dir: Some(dir@), ..old(self)@ }),
            *final(self) == *final(chain),
    {
        self.current_dir = Some(dir);
        self
    }

    /// The names of the unset slots, in declaration order.
    pub fn missing(&self) -> (names: Vec<String>)
        ensures
            names.deep_view() == self@.missing(),
    {
        let mut names: Vec<String> = Vec::new();
        assert(names.deep_view() =~= Seq::<Seq<char>>::empty());
        if self.executable.is_none() {
            let ghost before = names.deep_view();
            names.push(String::from_str("executable"));
            assert(names.deep_view() =~= before.push("executable"@));
        }
        if self.args.is_none() {
            let ghost before = names.deep_view();
            names.push(String::from_str("args"));
            assert(names.deep_view() =~= before.push("args"@));
        }
        if self.env.is_none() {
            let ghost before = names.deep_view();
            names.push(String::from_str("env"));
            assert(names.deep_view() =~= before.push("env"@));
        }
        if self.current_dir.is_none() {
            let ghost before = names.deep_view();
            names.push(String::from_str("current_dir"));
            assert(names.deep_view() =~= before.push("current_dir"@));
        }
        names
    }

    /// The terminal build operation. With every slot set it constructs the
    /// command from copies of the stored values; otherwise it fails with the
    /// names of all unset slots. The builder is left as it was.
    pub fn build(&self) -> (outcome: Result<Command, MissingFields>)
        ensures
            match outcome {
                Ok(command) => self@ == CommandSlots::filled(command@),
                Err(error) => error@ == self@.missing() && !self@.complete(),
            },
    {
        match (&self.executable, &self.args, &self.env, &self.current_dir) {
            (Some(executable), Some(args), Some(env), Some(current_dir)) => Ok(
                Command {
                    executable: executable.clone(),
                    args: copy_texts(args),
                    env: copy_texts(env),
                    current_dir: current_dir.clone(),
                },
            ),
            _ => Err(MissingFields { names: self.missing() }),
        }
    }
}

} // verus!
