//! A builder that works at run time from a generated definition: it stages
//! one value per field and assembles the record on demand.
use vstd::prelude::*;
use crate::schema::{wraps_option, FieldDeclaration};
use crate::synth::{generated_from, BuilderDefinition};

verus! {

/// One field of an assembled record.
#[derive(Debug, PartialEq, Eq)]
pub enum FieldValue<V> {
    /// The value of a required field.
    Required(V),
    /// The value of an optional field, absent when it was never set.
    Optional(Option<V>),
}

/// Why a build failed.
#[derive(Debug, PartialEq, Eq)]
pub enum BuildError {
    /// The first required field, in declaration order, that was not set.
    MissingField(String),
}

/// Staged values for the fields of one record type.
pub struct RecordBuilder<V> {
    /// The field names, in declaration order.
    pub names: Vec<String>,
    /// Whether each field must be set before building.
    pub required: Vec<bool>,
    /// The staged value of each field.
    pub slots: Vec<Option<V>>,
}

impl<V> RecordBuilder<V> {
    /// One name, one flag and one slot per field.
    pub open spec fn wf(&self) -> bool {
        &&& self.names@.len() == self.slots@.len()
        &&& self.required@.len() == self.slots@.len()
    }

    /// Field `k` is required and unset.
    pub open spec fn missing(&self, k: int) -> bool {
        self.required@[k] && self.slots@[k] is None
    }

    /// Field `k` is the first missing field in declaration order.
    pub open spec fn first_missing(&self, k: int) -> bool {
        &&& 0 <= k < self.slots@.len()
        &&& self.missing(k)
        &&& forall|j: int| 0 <= j < k ==> !self.missing(j)
    }

    /// No required field is unset.
    pub open spec fn complete(&self) -> bool {
        forall|k: int| 0 <= k < self.slots@.len() ==> !#[trigger] self.missing(k)
    }

    /// `next` is `self` with the value `v` staged for field `i`; nothing else changes.
    pub open spec fn staged(&self, i: int, v: V, next: Self) -> bool {
        &&& next.names == self.names
        &&& next.required == self.required
        &&& next.slots@ == self.slots@.update(i, Some(v))
    }
}

/// `b` is a builder just made from `def`: one field per build step of `def`,
/// with its name and flag, and every field unset.
pub open spec fn fresh<V>(def: BuilderDefinition, b: RecordBuilder<V>) -> bool {
    &&& b.wf()
    &&& b.slots@.len() == def.steps@.len()
    &&& forall|k: int| 0 <= k < b.slots@.len() ==> (#[trigger] b.slots@[k]) is None
    &&& forall|k: int| 0 <= k < b.slots@.len() ==> (#[trigger] b.names@[k])@ == def.steps@[k].name@
    &&& forall|k: int| 0 <= k < b.slots@.len() ==> #[trigger] b.required@[k] == def.steps@[k].required
}

/// `out` is the value that building gives for a field with the flag `required`
/// and the staged value `slot`: a clone of it, wrapped as the field's kind asks.
pub open spec fn assembled<V: Clone>(required: bool, slot: Option<V>, out: FieldValue<V>) -> bool {
    if required {
        &&& slot is Some
        &&& out is Required
        &&& cloned(slot->0, out->Required_0)
    } else {
        &&& out is Optional
        &&& (out->Optional_0 is Some <==> slot is Some)
        &&& (slot is Some ==> cloned(slot->0, out->Optional_0->0))
    }
}

/// `r` is an outcome of building from `b`: the first missing required field,
/// or the record with each field assembled from its staged value.
pub open spec fn build_outcome<V: Clone>(
    b: RecordBuilder<V>,
    r: Result<Vec<FieldValue<V>>, BuildError>,
) -> bool {
    match r {
        Err(BuildError::MissingField(n)) => exists|k: int|
            #[trigger] b.first_missing(k) && n@ == b.names@[k]@,
        Ok(vals) => {
            &&& b.complete()
            &&& vals@.len() == b.slots@.len()
            &&& forall|k: int|
                0 <= k < vals@.len() ==> assembled(
                    b.required@[k],
                    b.slots@[k],
                    #[trigger] vals@[k],
                )
        },
    }
}

impl<V: Clone> RecordBuilder<V> {
    /// A builder for the record that `def` was generated for, with every field unset.
    pub fn new(def: &BuilderDefinition) -> (r: Self)
        ensures
            fresh(*def, r),
    {
        let mut names: Vec<String> = Vec::new();
        let mut required: Vec<bool> = Vec::new();
        let mut slots: Vec<Option<V>> = Vec::new();
        let mut i: usize = 0;
        while i < def.steps.len()
            invariant
                i <= def.steps@.len(),
                names@.len() == i,
                required@.len() == i,
                slots@.len() == i,
                forall|k: int| 0 <= k < i ==> (#[trigger] slots@[k]) is None,
                forall|k: int| 0 <= k < i ==> (#[trigger] names@[k])@ == def.steps@[k].name@,
                forall|k: int| 0 <= k < i ==> #[trigger] required@[k] == def.steps@[k].required,
            decreases def.steps@.len() - i,
        {
            names.push(def.steps[i].name.clone());
            required.push(def.steps[i].required);
            slots.push(None);
            i = i + 1;
        }
        RecordBuilder { names, required, slots }
    }

    /// Stages `v` for field `i`, replacing any value staged before.
    pub fn set(&mut self, i: usize, v: V) -> (r: &mut Self)
        requires
            old(self).wf(),
            i < old(self).slots@.len(),
        ensures
            old(self).staged(i as int, v, *r),
            r.wf(),
            *final(self) == *final(r),
    {
        self.slots.set(i, Some(v));
        self
    }

    /// The position of the field named `name`, if there is one.
    pub fn position(&self, name: &String) -> (r: Option<usize>)
        ensures
            r is Some ==> r->0 < self.names@.len() && self.names@[r->0 as int]@ == name@,
            r is None ==> forall|k: int| 0 <= k < self.names@.len() ==> (#[trigger] self.names@[k])@ != name@,
    {
        let mut i: usize = 0;
        while i < self.names.len()
            invariant
                i <= self.names@.len(),
                forall|k: int| 0 <= k < i ==> (#[trigger] self.names@[k])@ != name@,
            decreases self.names@.len() - i,
        {
            if self.names[i] == *name {
                return Some(i);
            }
            i = i + 1;
        }
        None
    }

    /// Assembles the record from the staged values, failing on the first
    /// required field that is unset. The staged values stay as they are.
    pub fn build(&self) -> (r: Result<Vec<FieldValue<V>>, BuildError>)
        requires
            self.wf(),
        ensures
            build_outcome(*self, r),
    {
        let mut vals: Vec<FieldValue<V>> = Vec::new();
        let mut i: usize = 0;
        while i < self.slots.len()
            invariant
                self.wf(),
                i <= self.slots@.len(),
                vals@.len() == i,
                forall|k: int| 0 <= k < i ==> !#[trigger] self.missing(k),
                forall|k: int|
                    0 <= k < i ==> assembled(self.required@[k], self.slots@[k], #[trigger] vals@[k]),
            decreases self.slots@.len() - i,
        {
            let out = match &self.slots[i] {
                Some(v) => {
                    let c = v.clone();
                    if self.required[i] {
                        FieldValue::Required(c)
                    } else {
                        FieldValue::Optional(Some(c))
                    }
                },
                None => {
                    if self.required[i] {
                        assert(self.first_missing(i as int));
                        return Err(BuildError::MissingField(self.names[i].clone()));
                    }
                    FieldValue::Optional(None)
                },
            };
            vals.push(out);
            i = i + 1;
        }
        Ok(vals)
    }
}

/// A builder made from the definition generated for a record has one field
/// per declared field, in declaration order, with its name; a field is
/// required exactly when its type is not `Option<T>`; and every field starts
/// unset.
pub proof fn law_fresh_builder_mirrors_fields<V>(
    name: Seq<char>,
    decls: Seq<FieldDeclaration>,
    def: BuilderDefinition,
    b: RecordBuilder<V>,
)
    requires
        generated_from(name, decls, def),
        fresh(def, b),
    ensures
        b.wf(),
        b.slots@.len() == decls.len(),
        forall|k: int|
            0 <= k < decls.len() ==> {
                &&& (#[trigger] b.names@[k])@ == decls[k].name@
                &&& b.required@[k] == !wraps_option(decls[k].ty)
                &&& b.slots@[k] is None
            },
{
    assert forall|k: int| 0 <= k < decls.len() implies {
        &&& (#[trigger] b.names@[k])@ == decls[k].name@
        &&& b.required@[k] == !wraps_option(decls[k].ty)
        &&& b.slots@[k] is None
    } by {
        assert(crate::synth::step_matches(decls[k], def.steps@[k]));
        assert(b.slots@[k] is None);
        assert(b.required@[k] == def.steps@[k].required);
    }
}

/// Building before a required field is set fails, and names the first such
/// field in declaration order.
pub proof fn law_missing_field_first<V: Clone>(
    b: RecordBuilder<V>,
    r: Result<Vec<FieldValue<V>>, BuildError>,
    k: int,
)
    requires
        b.wf(),
        build_outcome(b, r),
        b.first_missing(k),
    ensures
        r matches Err(BuildError::MissingField(n)) && n@ == b.names@[k]@,
{
    match r {
        Ok(_) => {
            assert(!b.missing(k));
        },
        Err(BuildError::MissingField(n)) => {
            let k2 = choose|k2: int| #[trigger] b.first_missing(k2) && n@ == b.names@[k2]@;
            if k2 < k {
                assert(!b.missing(k2));
            } else if k < k2 {
                assert(!b.missing(k));
            }
        },
    }
}

/// An optional field that was never set does not stop a build, and comes out absent.
pub proof fn law_unset_optional_is_absent<V: Clone>(
    b: RecordBuilder<V>,
    r: Result<Vec<FieldValue<V>>, BuildError>,
    k: int,
)
    requires
        b.wf(),
        build_outcome(b, r),
        b.complete(),
        0 <= k < b.slots@.len(),
        !b.required@[k],
        b.slots@[k] is None,
    ensures
        r is Ok,
        r->Ok_0@[k] == FieldValue::<V>::Optional(None),
{
    match r {
        Ok(vals) => {
            assert(assembled(b.required@[k], b.slots@[k], vals@[k]));
        },
        Err(BuildError::MissingField(n)) => {
            let k2 = choose|k2: int| #[trigger] b.first_missing(k2) && n@ == b.names@[k2]@;
            assert(!b.missing(k2));
        },
    }
}

/// Setting a field twice leaves only the second value staged, and a build
/// gives that value for the field.
pub proof fn law_last_write_wins<V: Clone>(
    b0: RecordBuilder<V>,
    b1: RecordBuilder<V>,
    b2: RecordBuilder<V>,
    i: int,
    v1: V,
    v2: V,
    r: Result<Vec<FieldValue<V>>, BuildError>,
)
    requires
        b0.wf(),
        0 <= i < b0.slots@.len(),
        b0.staged(i, v1, b1),
        b1.staged(i, v2, b2),
        build_outcome(b2, r),
    ensures
        b0.staged(i, v2, b2),
        r is Ok ==> assembled(b0.required@[i], Some(v2), r->Ok_0@[i]),
{
    assert(b2.slots@ =~= b0.slots@.update(i, Some(v2)));
}

/// With every field set, a build succeeds and gives each field the value
/// staged for it: present for optional fields.
pub proof fn law_round_trip<V: Clone>(
    b: RecordBuilder<V>,
    r: Result<Vec<FieldValue<V>>, BuildError>,
)
    requires
        b.wf(),
        forall|k: int| 0 <= k < b.slots@.len() ==> (#[trigger] b.slots@[k]) is Some,
        build_outcome(b, r),
    ensures
        r is Ok,
        r->Ok_0@.len() == b.slots@.len(),
        forall|k: int|
            0 <= k < b.slots@.len() ==> {
                let out = #[trigger] r->Ok_0@[k];
                if b.required@[k] {
                    out is Required && cloned(b.slots@[k]->0, out->Required_0)
                } else {
                    out is Optional && out->Optional_0 is Some && cloned(
                        b.slots@[k]->0,
                        out->Optional_0->0,
                    )
                }
            },
{
    match r {
        Ok(vals) => {
            assert forall|k: int| 0 <= k < b.slots@.len() implies {
                let out = #[trigger] vals@[k];
                if b.required@[k] {
                    out is Required && cloned(b.slots@[k]->0, out->Required_0)
                } else {
                    out is Optional && out->Optional_0 is Some && cloned(
                        b.slots@[k]->0,
                        out->Optional_0->0,
                    )
                }
            } by {
                assert(assembled(b.required@[k], b.slots@[k], vals@[k]));
            }
        },
        Err(BuildError::MissingField(n)) => {
            let k2 = choose|k2: int| #[trigger] b.first_missing(k2) && n@ == b.names@[k2]@;
            assert(b.slots@[k2] is Some);
        },
    }
}

} // verus!
