use derive_builder::record::{BuildError, FieldValue, RecordBuilder};
use derive_builder::schema::{FieldDeclaration, Shape, TypeDefinition, TypeRef};
use derive_builder::synth::{derive_builder, BuilderDefinition};

fn ty(text: &str, head: &str, args: &[&str]) -> TypeRef {
    TypeRef {
        text: text.to_string(),
        head: Some(head.to_string()),
        args: args.iter().map(|a| a.to_string()).collect(),
    }
}

fn field(name: &str, ty: TypeRef) -> FieldDeclaration {
    FieldDeclaration { name: name.to_string(), ty, attrs: Vec::new() }
}

fn definition() -> BuilderDefinition {
    let def = TypeDefinition {
        name: "Job".to_string(),
        shape: Shape::Named(vec![
            field("command", ty("String", "String", &[])),
            field("note", ty("Option<String>", "Option", &["String"])),
            field("dir", ty("String", "String", &[])),
        ]),
    };
    derive_builder(&def).unwrap()
}

#[test]
fn fresh_builder_is_unset() {
    let b: RecordBuilder<String> = RecordBuilder::new(&definition());
    assert_eq!(b.slots, vec![None, None, None]);
    assert_eq!(b.required, vec![true, false, true]);
    assert_eq!(b.build(), Err(BuildError::MissingField("command".to_string())));
}

#[test]
fn missing_field_is_the_first_required_one() {
    let mut b: RecordBuilder<String> = RecordBuilder::new(&definition());
    b.set(0, "run".to_string());
    assert_eq!(b.build(), Err(BuildError::MissingField("dir".to_string())));
}

#[test]
fn unset_optional_field_comes_out_absent() {
    let mut b: RecordBuilder<String> = RecordBuilder::new(&definition());
    b.set(0, "run".to_string()).set(2, "/tmp".to_string());
    let out = b.build().unwrap();
    assert_eq!(
        out,
        vec![
            FieldValue::Required("run".to_string()),
            FieldValue::Optional(None),
            FieldValue::Required("/tmp".to_string()),
        ]
    );
}

#[test]
fn second_value_replaces_first() {
    let mut b: RecordBuilder<String> = RecordBuilder::new(&definition());
    b.set(0, "a".to_string()).set(2, "/".to_string()).set(0, "b".to_string());
    assert_eq!(b.build().unwrap()[0], FieldValue::Required("b".to_string()));
}

#[test]
fn every_field_set_round_trips() {
    let mut b: RecordBuilder<String> = RecordBuilder::new(&definition());
    b.set(1, "n".to_string()).set(2, "d".to_string()).set(0, "c".to_string());
    let out = b.build().unwrap();
    assert_eq!(
        out,
        vec![
            FieldValue::Required("c".to_string()),
            FieldValue::Optional(Some("n".to_string())),
            FieldValue::Required("d".to_string()),
        ]
    );
    assert_eq!(b.build().unwrap(), out);
}

#[test]
fn position_finds_fields_by_name() {
    let b: RecordBuilder<u32> = RecordBuilder::new(&definition());
    assert_eq!(b.position(&"dir".to_string()), Some(2));
    assert_eq!(b.position(&"missing".to_string()), None);
}

#[test]
fn two_fresh_builders_are_independent() {
    let def = definition();
    let mut a: RecordBuilder<u32> = RecordBuilder::new(&def);
    let b: RecordBuilder<u32> = RecordBuilder::new(&def);
    a.set(1, 7);
    assert_eq!(a.slots[1], Some(7));
    assert_eq!(b.slots[1], None);
}
