//! The contract a structured generation call must satisfy: a named set of
//! property descriptors together with the subset of names that a response is
//! required to bind.

use vstd::prelude::*;
use crate::json::{integer_text, lookup_spec, ExtractionResult, JsonValue};

verus! {

/// The scalar shape a property declares for its value.
#[derive(Clone, Copy, Debug, PartialEq, Eq, Structural)]
pub enum FieldType {
    Boolean,
    Integer,
    Number,
    Text,
}

/// One property a schema declares: its name, shape and natural-language
/// description.
#[derive(Debug, PartialEq, Eq)]
pub struct PropertyDescriptor {
    pub name: String,
    pub field_type: FieldType,
    pub description: String,
}

impl Clone for PropertyDescriptor {
    /// Cloning keeps every field.
    fn clone(&self) -> (r: Self)
        ensures
            r == self,
    {
        PropertyDescriptor {
            name: self.name.clone(),
            field_type: self.field_type,
            description: self.description.clone(),
        }
    }
}

/// A named extraction contract: property descriptors plus the names whose
/// presence a conforming response must bind.
#[derive(Debug, PartialEq, Eq)]
pub struct Schema {
    /// The name the schema is published under to the generation backend.
    pub name: String,
    /// The natural-language task description handed to the backend.
    pub description: String,
    pub properties: Vec<PropertyDescriptor>,
    pub required: Vec<String>,
}

/// The shape declared for `key` by the descriptors at or after position `i`.
pub open spec fn declared_from(props: Seq<PropertyDescriptor>, key: Seq<char>, i: int) -> Option<
    FieldType,
>
    decreases props.len() - i,
{
    if i < 0 || i >= props.len() {
        None
    } else if props[i].name@ == key {
        Some(props[i].field_type)
    } else {
        declared_from(props, key, i + 1)
    }
}

/// The shape declared for `key`, if `key` is declared at all.
pub open spec fn declared_spec(props: Seq<PropertyDescriptor>, key: Seq<char>) -> Option<
    FieldType,
> {
    declared_from(props, key, 0)
}

/// A schema's standing invariant: every required name is declared among the
/// properties.
pub open spec fn schema_wf(s: Schema) -> bool {
    forall|i: int|
        0 <= i < s.required@.len() ==> declared_spec(
            s.properties@,
            #[trigger] s.required@[i]@,
        ) is Some
}

/// Whether a value has the declared shape.  A null value has no shape, so a
/// required field bound to null never conforms.
pub open spec fn value_matches_spec(t: FieldType, v: JsonValue) -> bool {
    match t {
        FieldType::Boolean => v is Bool,
        FieldType::Integer => v matches JsonValue::Num(s) && integer_text(s@),
        FieldType::Number => v is Num,
        FieldType::Text => v is Text,
    }
}

/// Whether `fields` binds `key` to a non-null value of the shape the schema
/// declares for it.
pub open spec fn key_conforms(
    schema: Schema,
    fields: Seq<(String, JsonValue)>,
    key: Seq<char>,
) -> bool {
    match declared_spec(schema.properties@, key) {
        Some(t) => match lookup_spec(fields, key) {
            Some(v) => value_matches_spec(t, v),
            None => false,
        },
        None => false,
    }
}

/// Whether a response satisfies the schema: every required name is bound to a
/// non-null value of its declared shape.
pub open spec fn conforms_spec(schema: Schema, r: ExtractionResult) -> bool {
    forall|i: int|
        0 <= i < schema.required@.len() ==> key_conforms(
            schema,
            r.fields@,
            #[trigger] schema.required@[i]@,
        )
}

/// Whether the names in `names` from position `i` on contain `key`.
pub open spec fn contains_name_from(names: Seq<String>, key: Seq<char>, i: int) -> bool
    decreases names.len() - i,
{
    if i < 0 || i >= names.len() {
        false
    } else if names[i]@ == key {
        true
    } else {
        contains_name_from(names, key, i + 1)
    }
}

/// Whether some name in `names` reads `key`.
pub open spec fn contains_name_spec(names: Seq<String>, key: Seq<char>) -> bool {
    contains_name_from(names, key, 0)
}

/// Decides [`contains_name_spec`].
pub fn contains_name(names: &Vec<String>, key: &String) -> (b: bool)
    ensures
        b == contains_name_spec(names@, key@),
{
    let n: usize = names.len();
    let mut i: usize = 0;
    while i < n
        invariant
            i <= n,
            n == names@.len(),
            contains_name_from(names@, key@, 0) == contains_name_from(names@, key@, i as int),
        decreases n - i,
    {
        if names[i].eq(key) {
            assert(contains_name_from(names@, key@, i as int));
            return true;
        }
        assert(contains_name_from(names@, key@, i as int) == contains_name_from(
            names@,
            key@,
            i as int + 1,
        ));
        i = i + 1;
    }
    false
}

impl Schema {
    /// The shape declared for `key`, if `key` is declared at all.
    pub fn declared_type(&self, key: &String) -> (r: Option<FieldType>)
        ensures
            r == declared_spec(self.properties@, key@),
    {
        let n: usize = self.properties.len();
        let mut i: usize = 0;
        while i < n
            invariant
                i <= n,
                n == self.properties@.len(),
                declared_from(self.properties@, key@, 0) == declared_from(
                    self.properties@,
                    key@,
                    i as int,
                ),
            decreases n - i,
        {
            if self.properties[i].name.eq(key) {
                assert(declared_from(self.properties@, key@, i as int) == Some(
                    self.properties@[i as int].field_type,
                ));
                return Some(self.properties[i].field_type);
            }
            assert(declared_from(self.properties@, key@, i as int) == declared_from(
                self.properties@,
                key@,
                i as int + 1,
            ));
            i = i + 1;
        }
        None
    }

    /// Decides [`conforms_spec`] for a response against this schema.
    pub fn conforms(&self, r: &ExtractionResult) -> (b: bool)
        ensures
            b == conforms_spec(*self, *r),
    {
        let n: usize = self.required.len();
        let mut i: usize = 0;
        while i < n
            invariant
                i <= n,
                n == self.required@.len(),
                forall|j: int|
                    0 <= j < i ==> key_conforms(*self, r.fields@, #[trigger] self.required@[j]@),
            decreases n - i,
        {
            let key = &self.required[i];
            let ok: bool = match self.declared_type(key) {
                Some(t) => match r.lookup(key) {
                    Some(v) => value_matches(t, v),
                    None => false,
                },
                None => false,
            };
            if !ok {
                assert(!key_conforms(*self, r.fields@, self.required@[i as int]@));
                return false;
            }
            assert(key_conforms(*self, r.fields@, self.required@[i as int]@));
            i = i + 1;
        }
        true
    }
}

/// Decides [`value_matches_spec`].
pub fn value_matches(t: FieldType, v: &JsonValue) -> (b: bool)
    ensures
        b == value_matches_spec(t, *v),
{
    match t {
        FieldType::Boolean => match v {
            JsonValue::Bool(_) => true,
            _ => false,
        },
        FieldType::Integer => match v {
            JsonValue::Num(s) => crate::json::is_integer_text(s.as_str()),
            _ => false,
        },
        FieldType::Number => match v {
            JsonValue::Num(_) => true,
            _ => false,
        },
        FieldType::Text => match v {
            JsonValue::Text(_) => true,
            _ => false,
        },
    }
}

} // verus!
