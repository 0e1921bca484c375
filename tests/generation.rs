use derive_builder::schema::{
    classify_type, extract_fields, inspect_attributes, unwrap_type, AttrMeta, Classification,
    FieldDeclaration, GenError, Shape, TypeDefinition, TypeRef,
};
use derive_builder::synth::{builder_name, create_setter, create_struct_element, derive_builder};

fn plain(text: &str) -> TypeRef {
    TypeRef { text: text.to_string(), head: Some(text.to_string()), args: Vec::new() }
}

fn generic(head: &str, args: &[&str]) -> TypeRef {
    let text = format!("{}<{}>", head, args.join(", "));
    TypeRef {
        text,
        head: Some(head.to_string()),
        args: args.iter().map(|a| a.to_string()).collect(),
    }
}

fn field(name: &str, ty: TypeRef) -> FieldDeclaration {
    FieldDeclaration { name: name.to_string(), ty, attrs: Vec::new() }
}

fn command_definition() -> TypeDefinition {
    TypeDefinition {
        name: "ACommand".to_string(),
        shape: Shape::Named(vec![
            field("executable", plain("String")),
            field("args", generic("Vec", &["String"])),
            field("env", generic("Vec", &["String"])),
            field("current_dir", plain("String")),
            field("hello", generic("Option", &["String"])),
        ]),
    }
}

#[test]
fn builder_has_one_field_per_declared_field_in_order() {
    let b = derive_builder(&command_definition()).unwrap();
    assert_eq!(b.name, "ACommandBuilder");
    assert_eq!(b.target, "ACommand");
    let names: Vec<&str> = b.fields.iter().map(|f| f.name.as_str()).collect();
    assert_eq!(names, vec!["executable", "args", "env", "current_dir", "hello"]);
    let types: Vec<&str> = b.fields.iter().map(|f| f.value_type.as_str()).collect();
    assert_eq!(types, vec!["String", "Vec<String>", "Vec<String>", "String", "String"]);
    let init: Vec<&str> = b.init.iter().map(|f| f.as_str()).collect();
    assert_eq!(init, names);
}

#[test]
fn optional_setter_takes_bare_inner_type() {
    let b = derive_builder(&command_definition()).unwrap();
    assert_eq!(b.setters.len(), 5);
    assert_eq!(b.setters[4].name, "hello");
    assert_eq!(b.setters[4].param_type, "String");
    assert_eq!(b.setters[1].param_type, "Vec<String>");
}

#[test]
fn only_plain_fields_are_required() {
    let b = derive_builder(&command_definition()).unwrap();
    let required: Vec<bool> = b.steps.iter().map(|s| s.required).collect();
    assert_eq!(required, vec![true, true, true, true, false]);
}

#[test]
fn tuple_and_enum_shapes_are_unsupported() {
    for shape in [Shape::Tuple, Shape::Enum, Shape::Unit, Shape::Union] {
        let def = TypeDefinition { name: "Pair".to_string(), shape };
        assert!(matches!(derive_builder(&def), Err(GenError::UnsupportedShape)));
        assert!(matches!(extract_fields(&def), Err(GenError::UnsupportedShape)));
    }
}

#[test]
fn empty_record_gives_empty_builder() {
    let def = TypeDefinition { name: "Empty".to_string(), shape: Shape::Named(Vec::new()) };
    let b = derive_builder(&def).unwrap();
    assert_eq!(b.name, "EmptyBuilder");
    assert!(b.fields.is_empty() && b.setters.is_empty() && b.steps.is_empty());
}

#[test]
fn malformed_attribute_aborts_generation() {
    let mut f = field("args", generic("Vec", &["String"]));
    f.attrs.push(AttrMeta::NameValue);
    let def = TypeDefinition { name: "ACommand".to_string(), shape: Shape::Named(vec![f]) };
    assert!(matches!(derive_builder(&def), Err(GenError::UnrecognizedAttributeMeta)));
}

#[test]
fn attribute_tokens_are_kept_and_do_not_change_generation() {
    let mut f = field("args", generic("Vec", &["String"]));
    f.attrs.push(AttrMeta::List("each = \"arg\"".to_string()));
    f.attrs.push(AttrMeta::Path);
    let def = TypeDefinition { name: "ACommand".to_string(), shape: Shape::Named(vec![f]) };
    let schemas = extract_fields(&def).unwrap();
    assert_eq!(schemas[0].attr.as_deref(), Some("each = \"arg\""));
    assert_eq!(schemas[0].class, Classification::Plain);
    let b = derive_builder(&def).unwrap();
    assert_eq!(b.fields[0].value_type, "Vec<String>");
}

#[test]
fn inspect_attributes_cases() {
    assert_eq!(inspect_attributes(&Vec::new()), Ok(None));
    assert_eq!(inspect_attributes(&vec![AttrMeta::Path]), Err(GenError::UnrecognizedAttributeMeta));
    assert_eq!(
        inspect_attributes(&vec![AttrMeta::List("x".to_string()), AttrMeta::NameValue]),
        Ok(Some("x".to_string()))
    );
}

#[test]
fn classification_unwraps_one_level_only() {
    let nested = TypeRef {
        text: "Option<Option<u8>>".to_string(),
        head: Some("Option".to_string()),
        args: vec!["Option<u8>".to_string()],
    };
    assert_eq!(classify_type(&nested), Classification::OptionWrapped("Option<u8>".to_string()));
    assert_eq!(unwrap_type(&generic("Option", &["u8"])), Some("u8".to_string()));
}

#[test]
fn classification_is_syntactic() {
    assert_eq!(classify_type(&generic("Vec", &["String"])), Classification::Plain);
    assert_eq!(classify_type(&generic("Option", &["u8", "u16"])), Classification::Plain);
    assert_eq!(classify_type(&plain("Option")), Classification::Plain);
    let reference = TypeRef { text: "&'static str".to_string(), head: None, args: Vec::new() };
    assert_eq!(classify_type(&reference), Classification::Plain);
    let qualified = TypeRef {
        text: "std::option::Option<u8>".to_string(),
        head: Some("std".to_string()),
        args: Vec::new(),
    };
    assert_eq!(unwrap_type(&qualified), None);
}

#[test]
fn double_optional_field_stores_inner_optional() {
    let nested = TypeRef {
        text: "Option<Option<u8>>".to_string(),
        head: Some("Option".to_string()),
        args: vec!["Option<u8>".to_string()],
    };
    let def = TypeDefinition {
        name: "T".to_string(),
        shape: Shape::Named(vec![field("level", nested)]),
    };
    let b = derive_builder(&def).unwrap();
    assert_eq!(b.fields[0].value_type, "Option<u8>");
    assert!(!b.steps[0].required);
}

#[test]
fn small_constructors() {
    assert_eq!(builder_name(&"Foo".to_string()), "FooBuilder");
    let s = create_setter(&"env".to_string(), &"Vec<String>".to_string());
    assert_eq!((s.name.as_str(), s.param_type.as_str()), ("env", "Vec<String>"));
    let st = create_struct_element(&"hello".to_string(), true);
    assert_eq!((st.name.as_str(), st.required), ("hello", false));
}
