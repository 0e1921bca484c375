//! The schema of a record type and the classification of its fields.
use vstd::prelude::*;

verus! {

/// A type as written in a field declaration.
pub struct TypeRef {
    /// The source text of the whole type, such as `Option<String>`.
    pub text: String,
    /// The name of the first path segment, when the type is a path.
    pub head: Option<String>,
    /// The source text of each generic type argument of that segment.
    pub args: Vec<String>,
}

/// The shape of one attribute attached to a field.
pub enum AttrMeta {
    /// A bare path, such as `#[builder]`.
    Path,
    /// A path followed by a token list, such as `#[builder(each = "arg")]`;
    /// holds the text of the tokens.
    List(String),
    /// A path with a value, such as `#[builder = "x"]`.
    NameValue,
}

/// One named field of a record.
pub struct FieldDeclaration {
    pub name: String,
    pub ty: TypeRef,
    pub attrs: Vec<AttrMeta>,
}

/// What a type definition is made of.
pub enum Shape {
    /// A record with named fields, in declaration order.
    Named(Vec<FieldDeclaration>),
    /// A record with positional fields.
    Tuple,
    /// A record without fields.
    Unit,
    Enum,
    Union,
}

/// A type definition as handed over by a parsing frontend.
pub struct TypeDefinition {
    pub name: String,
    pub shape: Shape,
}

/// How a field takes part in building.
#[derive(Debug, PartialEq, Eq)]
pub enum Classification {
    /// Required at build time.
    Plain,
    /// Declared as `Option<T>`; holds the text of `T`. Absence is a valid final value.
    OptionWrapped(String),
}

/// A field together with its classification.
pub struct FieldSchema {
    pub name: String,
    /// The source text of the declared type.
    pub ty: String,
    pub class: Classification,
    /// The tokens of the first attribute, when there is one.
    pub attr: Option<String>,
}

/// Why generation was refused.
#[derive(Debug, PartialEq, Eq, Structural)]
pub enum GenError {
    /// The definition is not a record with named fields.
    UnsupportedShape,
    /// A field's first attribute is not a token list.
    UnrecognizedAttributeMeta,
}

/// The name of the recognised optional wrapper.
pub open spec fn wrapper_name() -> Seq<char> {
    "Option"@
}

/// The type is literally `Option<T>` for exactly one type argument `T`.
pub open spec fn wraps_option(ty: TypeRef) -> bool {
    &&& ty.head is Some
    &&& ty.head->0@ == wrapper_name()
    &&& ty.args@.len() == 1
}

/// The type that a builder stores and a setter takes for a field of type `ty`:
/// the inner type of an optional field, else the declared type.
pub open spec fn value_type_of(ty: TypeRef) -> Seq<char> {
    if wraps_option(ty) {
        ty.args@[0]@
    } else {
        ty.text@
    }
}

/// The attributes have the expected shape: none, or a token list first.
pub open spec fn attrs_ok(attrs: Seq<AttrMeta>) -> bool {
    attrs.len() == 0 || attrs[0] is List
}

/// Every field's attributes have the expected shape.
pub open spec fn all_attrs_ok(fields: Seq<FieldDeclaration>) -> bool {
    forall|i: int| 0 <= i < fields.len() ==> attrs_ok(#[trigger] fields[i].attrs@)
}

/// The schema `s` is the one derived from the declaration `d`.
pub open spec fn schema_of(d: FieldDeclaration, s: FieldSchema) -> bool {
    &&& s.name@ == d.name@
    &&& s.ty@ == d.ty.text@
    &&& (s.class is Plain <==> !wraps_option(d.ty))
    &&& (s.class is OptionWrapped ==> s.class->0@ == d.ty.args@[0]@)
    &&& (s.attr is Some <==> d.attrs@.len() > 0)
    &&& (s.attr is Some ==> s.attr->0@ == d.attrs@[0]->List_0@)
}

/// The inner type of `Option<T>`, or `None` for any other type.
/// Only one level is unwrapped: the inner type of `Option<Option<u8>>` is `Option<u8>`.
pub fn unwrap_type(ty: &TypeRef) -> (r: Option<String>)
    ensures
        r is Some <==> wraps_option(*ty),
        r is Some ==> r->0@ == ty.args@[0]@,
{
    match &ty.head {
        Some(head) => {
            let wrapper = String::from_str("Option");
            if *head == wrapper && ty.args.len() == 1 {
                Some(ty.args[0].clone())
            } else {
                None
            }
        },
        None => None,
    }
}

/// Classifies a declared type: `Option<T>` is optional with inner type `T`,
/// anything else is plain.
pub fn classify_type(ty: &TypeRef) -> (r: Classification)
    ensures
        r is Plain <==> !wraps_option(*ty),
        r is OptionWrapped ==> r->0@ == ty.args@[0]@,
{
    match unwrap_type(ty) {
        Some(inner) => Classification::OptionWrapped(inner),
        None => Classification::Plain,
    }
}

/// The tokens of a field's first attribute. Fails when that attribute is not
/// a token list.
pub fn inspect_attributes(attrs: &Vec<AttrMeta>) -> (r: Result<Option<String>, GenError>)
    ensures
        r is Err <==> !attrs_ok(attrs@),
        r is Err ==> r->Err_0 == GenError::UnrecognizedAttributeMeta,
        r is Ok ==> (r->Ok_0 is Some <==> attrs@.len() > 0),
        r matches Ok(Some(t)) ==> t@ == attrs@[0]->List_0@,
{
    if attrs.len() == 0 {
        return Ok(None);
    }
    match &attrs[0] {
        AttrMeta::List(tokens) => Ok(Some(tokens.clone())),
        _ => Err(GenError::UnrecognizedAttributeMeta),
    }
}

/// Derives the schema of one field declaration.
pub fn field_schema(d: &FieldDeclaration) -> (r: Result<FieldSchema, GenError>)
    ensures
        r is Err <==> !attrs_ok(d.attrs@),
        r is Err ==> r->Err_0 == GenError::UnrecognizedAttributeMeta,
        r is Ok ==> schema_of(*d, r->Ok_0),
{
    let attr = match inspect_attributes(&d.attrs) {
        Ok(a) => a,
        Err(e) => return Err(e),
    };
    Ok(FieldSchema {
        name: d.name.clone(),
        ty: d.ty.text.clone(),
        class: classify_type(&d.ty),
        attr,
    })
}

/// The ordered field schemas of a record with named fields. Fails as a whole,
/// with no partial output, on any other shape or on a malformed attribute.
pub fn extract_fields(def: &TypeDefinition) -> (r: Result<Vec<FieldSchema>, GenError>)
    ensures
        r matches Err(GenError::UnsupportedShape) <==> !(def.shape is Named),
        r matches Err(GenError::UnrecognizedAttributeMeta) <==> (def.shape is Named
            && !all_attrs_ok(def.shape->Named_0@)),
        r is Ok ==> def.shape is Named && r->Ok_0@.len() == def.shape->Named_0@.len()
            && forall|i: int|
            0 <= i < r->Ok_0@.len() ==> schema_of(
                #[trigger] def.shape->Named_0@[i],
                r->Ok_0@[i],
            ),
{
    let decls = match &def.shape {
        Shape::Named(decls) => decls,
        _ => return Err(GenError::UnsupportedShape),
    };
    let mut out: Vec<FieldSchema> = Vec::new();
    let mut i: usize = 0;
    while i < decls.len()
        invariant
            def.shape == Shape::Named(*decls),
            i <= decls@.len(),
            out@.len() == i,
            forall|j: int| 0 <= j < i ==> attrs_ok(#[trigger] decls@[j].attrs@),
            forall|j: int| 0 <= j < i ==> schema_of(#[trigger] decls@[j], out@[j]),
        decreases decls@.len() - i,
    {
        match field_schema(&decls[i]) {
            Ok(s) => out.push(s),
            Err(e) => return Err(e),
        }
        i = i + 1;
    }
    Ok(out)
}

} // verus!
