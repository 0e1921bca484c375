//! Synthesis of a builder's declarations from a record's field schemas.
use vstd::prelude::*;
use crate::schema::{
    all_attrs_ok, extract_fields, schema_of, value_type_of, wraps_option, Classification,
    FieldDeclaration, FieldSchema, GenError, TypeDefinition,
};

verus! {

/// A storage field of the builder: `name: Option<value_type>`.
pub struct BuilderField {
    pub name: String,
    pub value_type: String,
}

/// A setter `fn name(&mut self, name: param_type) -> &mut Self` that stores
/// its argument as present.
pub struct SetterMethod {
    pub name: String,
    pub param_type: String,
}

/// How the build operation fills one field of the record: a required field
/// must be present, an optional one is passed through as stored.
pub struct BuildStep {
    pub name: String,
    pub required: bool,
}

/// The declarations generated for one record type.
pub struct BuilderDefinition {
    /// The builder type's name: the record's name followed by `Builder`.
    pub name: String,
    /// The record type's name.
    pub target: String,
    pub fields: Vec<BuilderField>,
    pub setters: Vec<SetterMethod>,
    /// The steps of the build operation, in declaration order.
    pub steps: Vec<BuildStep>,
    /// The fields that the factory `builder()` starts unset.
    pub init: Vec<String>,
}

/// The suffix added to a record's name to name its builder.
pub open spec fn builder_suffix() -> Seq<char> {
    "Builder"@
}

/// The field of the builder that stands for the field declared as `d`.
pub open spec fn field_matches(d: FieldDeclaration, f: BuilderField) -> bool {
    f.name@ == d.name@ && f.value_type@ == value_type_of(d.ty)
}

/// The setter generated for the field declared as `d`.
pub open spec fn setter_matches(d: FieldDeclaration, s: SetterMethod) -> bool {
    s.name@ == d.name@ && s.param_type@ == value_type_of(d.ty)
}

/// The build step generated for the field declared as `d`.
pub open spec fn step_matches(d: FieldDeclaration, s: BuildStep) -> bool {
    s.name@ == d.name@ && s.required == !wraps_option(d.ty)
}

/// `b` is the builder generated for a record named `name` with the fields
/// `decls`: one storage field, setter, build step and initial entry per
/// declared field, in declaration order.
pub open spec fn generated_from(name: Seq<char>, decls: Seq<FieldDeclaration>, b: BuilderDefinition) -> bool {
    &&& b.name@ == name + builder_suffix()
    &&& b.target@ == name
    &&& b.fields@.len() == decls.len()
    &&& b.setters@.len() == decls.len()
    &&& b.steps@.len() == decls.len()
    &&& b.init@.len() == decls.len()
    &&& forall|i: int| 0 <= i < decls.len() ==> field_matches(#[trigger] decls[i], b.fields@[i])
    &&& forall|i: int| 0 <= i < decls.len() ==> setter_matches(#[trigger] decls[i], b.setters@[i])
    &&& forall|i: int| 0 <= i < decls.len() ==> step_matches(#[trigger] decls[i], b.steps@[i])
    &&& forall|i: int| 0 <= i < decls.len() ==> (#[trigger] b.init@[i])@ == decls[i].name@
}

/// The type a field's value has in the builder: the inner type of an
/// optional field, never wrapped twice.
fn value_type(s: &FieldSchema) -> (r: String)
    ensures
        s.class is Plain ==> r@ == s.ty@,
        s.class is OptionWrapped ==> r@ == s.class->0@,
{
    match &s.class {
        Classification::Plain => s.ty.clone(),
        Classification::OptionWrapped(inner) => inner.clone(),
    }
}

/// The storage field `name: Option<value_type>`.
pub fn create_field(name: &String, value_type: &String) -> (r: BuilderField)
    ensures
        r.name@ == name@,
        r.value_type@ == value_type@,
{
    BuilderField { name: name.clone(), value_type: value_type.clone() }
}

/// The setter for a field, taking a bare value of `param_type`.
pub fn create_setter(name: &String, param_type: &String) -> (r: SetterMethod)
    ensures
        r.name@ == name@,
        r.param_type@ == param_type@,
{
    SetterMethod { name: name.clone(), param_type: param_type.clone() }
}

/// The build step for a field: required unless it is optional.
pub fn create_struct_element(name: &String, is_option: bool) -> (r: BuildStep)
    ensures
        r.name@ == name@,
        r.required == !is_option,
{
    BuildStep { name: name.clone(), required: !is_option }
}

/// The builder's name: the record's name followed by `Builder`.
pub fn builder_name(name: &String) -> (r: String)
    ensures
        r@ == name@ + builder_suffix(),
{
    name.clone().concat("Builder")
}

/// Generates the builder of a record type. Fails with `UnsupportedShape` on
/// anything but a record with named fields, and with
/// `UnrecognizedAttributeMeta` when a field's first attribute is not a token
/// list; in either case nothing is generated.
pub fn derive_builder(def: &TypeDefinition) -> (r: Result<BuilderDefinition, GenError>)
    ensures
        r matches Err(GenError::UnsupportedShape) <==> !(def.shape is Named),
        r matches Err(GenError::UnrecognizedAttributeMeta) <==> (def.shape is Named
            && !all_attrs_ok(def.shape->Named_0@)),
        r is Ok ==> def.shape is Named && generated_from(def.name@, def.shape->Named_0@, r->Ok_0),
{
    let schemas = match extract_fields(def) {
        Ok(s) => s,
        Err(e) => return Err(e),
    };
    let ghost decls = def.shape->Named_0@;
    let mut fields: Vec<BuilderField> = Vec::new();
    let mut setters: Vec<SetterMethod> = Vec::new();
    let mut steps: Vec<BuildStep> = Vec::new();
    let mut init: Vec<String> = Vec::new();
    let mut i: usize = 0;
    while i < schemas.len()
        invariant
            schemas@.len() == decls.len(),
            forall|j: int| 0 <= j < decls.len() ==> schema_of(#[trigger] decls[j], schemas@[j]),
            i <= schemas@.len(),
            fields@.len() == i,
            setters@.len() == i,
            steps@.len() == i,
            init@.len() == i,
            forall|j: int| 0 <= j < i ==> field_matches(#[trigger] decls[j], fields@[j]),
            forall|j: int| 0 <= j < i ==> setter_matches(#[trigger] decls[j], setters@[j]),
            forall|j: int| 0 <= j < i ==> step_matches(#[trigger] decls[j], steps@[j]),
            forall|j: int| 0 <= j < i ==> (#[trigger] init@[j])@ == decls[j].name@,
        decreases schemas@.len() - i,
    {
        let s = &schemas[i];
        assert(schema_of(decls[i as int], *s));
        let vt = value_type(s);
        fields.push(create_field(&s.name, &vt));
        setters.push(create_setter(&s.name, &vt));
        let is_option = match &s.class {
            Classification::OptionWrapped(_) => true,
            Classification::Plain => false,
        };
        steps.push(create_struct_element(&s.name, is_option));
        init.push(s.name.clone());
        i = i + 1;
    }
    Ok(BuilderDefinition {
        name: builder_name(&def.name),
        target: def.name.clone(),
        fields,
        setters,
        steps,
        init,
    })
}

} // verus!
