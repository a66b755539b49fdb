use builder::command::{BuilderImpl, Command, CommandBuilder};
use builder::descriptor::{FieldDescriptor, FieldType, TypeDescriptor};
use builder::plan::derive_spec;
use builder::runtime::{BuilderInstance, Instance, MissingFields};

#[derive(Debug, Clone, PartialEq)]
enum Value {
    Int(i64),
    Text(String),
}

fn text(s: &str) -> String {
    s.to_string()
}

fn texts(items: &[&str]) -> Vec<String> {
    items.iter().map(|s| s.to_string()).collect()
}

fn pair() -> TypeDescriptor {
    TypeDescriptor::new(
        text("Pair"),
        vec![
            FieldDescriptor::required(text("a"), FieldType::Int),
            FieldDescriptor::required(text("b"), FieldType::Text),
        ],
    )
    .expect("field names differ")
}

fn triple(names: [&str; 3]) -> TypeDescriptor {
    TypeDescriptor::new(
        text("Triple"),
        names.iter().map(|n| FieldDescriptor::required(text(n), FieldType::Int)).collect(),
    )
    .expect("field names differ")
}

#[test]
fn factory_makes_an_empty_builder() {
    let builder: BuilderInstance<Value> = BuilderInstance::for_record(&pair());
    assert_eq!(builder.len(), 2);
    assert!(!builder.is_set(0));
    assert!(!builder.is_set(1));
    assert!(!builder.is_complete());
    assert_eq!(builder.slot_index("a"), Some(0));
    assert_eq!(builder.slot_index("b"), Some(1));
    assert_eq!(builder.slot_index("c"), None);
    assert_eq!(builder.missing(), texts(&["a", "b"]));

    let same: BuilderInstance<Value> = BuilderInstance::new(derive_spec(&pair()));
    assert_eq!(same.len(), 2);
    assert_eq!(same.missing(), texts(&["a", "b"]));
}

#[test]
fn round_trip() {
    let mut builder: BuilderInstance<Value> = BuilderInstance::for_record(&pair());
    builder.set("a", Value::Int(5)).set("b", Value::Text(text("x")));
    assert!(builder.is_complete());
    let direct = Instance {
        record: text("Pair"),
        fields: vec![Some(Value::Int(5)), Some(Value::Text(text("x")))],
    };
    assert_eq!(builder.build(), Ok(direct));
}

#[test]
fn order_independence() {
    let mut one: BuilderInstance<Value> = BuilderInstance::for_record(&pair());
    one.set("a", Value::Int(5)).set("b", Value::Text(text("x")));
    let mut other: BuilderInstance<Value> = BuilderInstance::for_record(&pair());
    other.set("b", Value::Text(text("x"))).set("a", Value::Int(5));
    assert!(one.build().is_ok());
    assert_eq!(one.build(), other.build());
}

#[test]
fn last_write_wins() {
    let mut builder: BuilderInstance<Value> = BuilderInstance::for_record(&pair());
    builder.set("a", Value::Int(1));
    builder.set("a", Value::Int(2));
    builder.set("b", Value::Text(text("x")));
    let instance = builder.build().expect("every slot is set");
    assert_eq!(instance.fields[0], Some(Value::Int(2)));
    assert_eq!(instance.fields[1], Some(Value::Text(text("x"))));
}

#[test]
fn missing_fields_are_all_listed() {
    let mut builder: BuilderInstance<Value> =
        BuilderInstance::for_record(&triple(["x", "y", "z"]));
    builder.set("y", Value::Int(1));
    assert_eq!(builder.build(), Err(MissingFields { names: texts(&["x", "z"]) }));

    let mut reordered: BuilderInstance<Value> =
        BuilderInstance::for_record(&triple(["z", "y", "x"]));
    reordered.set("y", Value::Int(1));
    let error = reordered.build().unwrap_err();
    assert_eq!(error.names, texts(&["z", "x"]));
    let mut sorted = error.names.clone();
    sorted.sort();
    assert_eq!(sorted, texts(&["x", "z"]));
}

#[test]
fn a_failed_build_can_be_retried() {
    let mut builder: BuilderInstance<Value> = BuilderInstance::for_record(&pair());
    builder.set("b", Value::Text(text("x")));
    assert_eq!(builder.build(), Err(MissingFields { names: texts(&["a"]) }));
    builder.set("a", Value::Int(7));
    let built = builder.build().expect("every slot is set");
    assert_eq!(built.record, "Pair");
    assert_eq!(built.fields, vec![Some(Value::Int(7)), Some(Value::Text(text("x")))]);
}

#[test]
fn build_is_a_snapshot() {
    let mut builder: BuilderInstance<Value> = BuilderInstance::for_record(&pair());
    builder.set_at(0, Value::Int(5)).set_at(1, Value::Text(text("x")));
    let first = builder.build();
    let second = builder.build();
    assert!(first.is_ok());
    assert_eq!(first, second);
    builder.set_at(0, Value::Int(6));
    let third = builder.build().expect("every slot is set");
    assert_eq!(third.fields[0], Some(Value::Int(6)));
    assert_eq!(first.unwrap().fields[0], Some(Value::Int(5)));
}

#[test]
fn optional_fields_resolve_to_absent() {
    let descriptor = TypeDescriptor::new(
        text("Note"),
        vec![
            FieldDescriptor::required(text("title"), FieldType::Text),
            FieldDescriptor::optional(text("body"), FieldType::Text),
        ],
    )
    .expect("field names differ");
    let mut builder: BuilderInstance<Value> = BuilderInstance::for_record(&descriptor);
    assert_eq!(builder.missing(), texts(&["title"]));
    builder.set("title", Value::Text(text("t")));
    assert!(builder.is_complete());
    assert!(!builder.is_set(1));
    let built = builder.build().expect("the required slot is set");
    assert_eq!(built.fields, vec![Some(Value::Text(text("t"))), None]);
    builder.set("body", Value::Text(text("b")));
    let built = builder.build().expect("the required slot is set");
    assert_eq!(built.fields[1], Some(Value::Text(text("b"))));
}

#[test]
fn an_empty_record_builds_at_once() {
    let descriptor = TypeDescriptor::new(text("Unit"), Vec::new()).expect("no fields");
    let builder: BuilderInstance<Value> = BuilderInstance::for_record(&descriptor);
    assert_eq!(builder.len(), 0);
    assert!(builder.is_complete());
    assert_eq!(builder.build(), Ok(Instance { record: text("Unit"), fields: Vec::new() }));
}

#[test]
fn command_round_trip() {
    let mut builder = Command::builder();
    builder
        .executable(text("cargo"))
        .args(texts(&["build", "--release"]))
        .env(texts(&[]))
        .current_dir(text(".."));
    let direct = Command {
        executable: text("cargo"),
        args: texts(&["build", "--release"]),
        env: Vec::new(),
        current_dir: text(".."),
    };
    assert_eq!(builder.build(), Ok(direct));
}

#[test]
fn command_order_independence() {
    let mut one = Command::builder();
    one.executable(text("ls")).args(texts(&["-l"])).env(texts(&["A=1"])).current_dir(text("/"));
    let mut other = Command::builder();
    other.current_dir(text("/")).env(texts(&["A=1"])).args(texts(&["-l"])).executable(text("ls"));
    assert_eq!(one, other);
    assert!(one.build().is_ok());
    assert_eq!(one.build(), other.build());
}

#[test]
fn command_last_write_wins() {
    let mut builder = Command::builder();
    builder.executable(text("first")).executable(text("second"));
    builder.args(Vec::new()).env(Vec::new()).current_dir(text("."));
    builder.args(texts(&["x"]));
    let command = builder.build().expect("every slot is set");
    assert_eq!(command.executable, "second");
    assert_eq!(command.args, texts(&["x"]));
}

#[test]
fn command_missing_fields_are_all_listed() {
    let mut builder = Command::builder();
    assert_eq!(builder.missing(), texts(&["executable", "args", "env", "current_dir"]));
    assert_eq!(
        builder.build(),
        Err(MissingFields { names: texts(&["executable", "args", "env", "current_dir"]) })
    );
    builder.env(texts(&["A=1"]));
    assert_eq!(
        builder.build(),
        Err(MissingFields { names: texts(&["executable", "args", "current_dir"]) })
    );
    builder.executable(text("ls")).current_dir(text("/"));
    assert_eq!(builder.build(), Err(MissingFields { names: texts(&["args"]) }));
    builder.args(Vec::new());
    assert_eq!(builder.missing(), Vec::<String>::new());
    assert!(builder.build().is_ok());
}

#[test]
fn command_build_is_a_snapshot() {
    let mut builder = Command::builder();
    builder.executable(text("ls")).args(Vec::new()).env(Vec::new()).current_dir(text("/"));
    let first = builder.build();
    assert_eq!(first, builder.build());
    builder.current_dir(text("/tmp"));
    assert_eq!(builder.build().unwrap().current_dir, "/tmp");
    assert_eq!(first.unwrap().current_dir, "/");
}

#[test]
fn the_trait_hands_out_the_same_builder() {
    let from_trait: CommandBuilder = <Command as BuilderImpl>::builder();
    assert_eq!(from_trait, Command::builder());
    assert!(from_trait.build().is_err());
}

#[test]
fn command_description_matches_the_builder() {
    let descriptor = Command::descriptor();
    assert_eq!(descriptor.name(), "Command");
    assert_eq!(descriptor.len(), 4);
    let mut generic: BuilderInstance<Value> = BuilderInstance::for_record(&descriptor);
    assert_eq!(generic.missing(), Command::builder().missing());
    generic.set("env", Value::Int(0));
    let mut by_hand = Command::builder();
    by_hand.env(Vec::new());
    assert_eq!(generic.missing(), by_hand.missing());
}
