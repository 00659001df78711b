//! Queries as parsed, before validation.

use vstd::prelude::*;

pub use crate::formulation::output::{Attribute, Part, PartV};

verus! {

/// Helps in parsing and reporting errors related to values.
#[derive(Debug)]
pub enum ValueTemplate {
    /// Corresponds to any quoted value - strings, dates.
    Quoted(String),
    /// Corresponds to any unquoted value - numbers, booleans.
    Unquoted(String),
    /// Corresponds to objects (bound by curly braces "{}")
    Object(ObjectTemplate),
    /// Corresponds to code mode (bound by parenthesis "()")
    Code(String),
}

/// The view of a value template.
pub enum TemplateV {
    Quoted(Seq<char>),
    Unquoted(Seq<char>),
    Object(Seq<(Seq<PartV>, TemplateV)>),
    Code(Seq<char>),
}

impl ValueTemplate {
    /// The view of the value.
    pub open spec fn view_rec(self) -> TemplateV
        decreases self,
    {
        match self {
            ValueTemplate::Quoted(s) => TemplateV::Quoted(s@),
            ValueTemplate::Unquoted(s) => TemplateV::Unquoted(s@),
            ValueTemplate::Object(o) => TemplateV::Object(
                Seq::new(
                    o.fields@.len(),
                    |i: int|
                        if 0 <= i < o.fields@.len() {
                            (o.fields@[i].attr@, o.fields@[i].value.view_rec())
                        } else {
                            (Seq::empty(), TemplateV::Code(Seq::empty()))
                        },
                ),
            ),
            ValueTemplate::Code(s) => TemplateV::Code(s@),
        }
    }

    /// Return `true` if the value corresponds to an empty string.
    pub fn is_empty_string(&self) -> (r: bool)
        ensures
            r == (self matches ValueTemplate::Quoted(s) && s@.len() == 0),
    {
        match self {
            ValueTemplate::Quoted(string) => crate::text::chars_of(string.as_str()).len() == 0,
            _ => false,
        }
    }
}

/// Helps in parsing and reporting errors related to fields.
#[derive(Debug)]
pub struct FieldTemplate {
    /// Describes the field attribute.
    pub attr: Attribute,
    /// Describes the field value.
    pub value: ValueTemplate,
}

impl FieldTemplate {
    /// Constructs a new `FieldTemplate`.
    pub fn new(attr: Attribute, value: ValueTemplate) -> (r: Self)
        ensures
            r.attr == attr,
            r.value == value,
    {
        Self { attr, value }
    }
}

/// Helps in parsing and reporting errors related to objects.
#[derive(Debug)]
pub struct ObjectTemplate {
    /// List of the object's fields.
    pub fields: Vec<FieldTemplate>,
}

impl ObjectTemplate {
    /// The view of the fields: attributes and value templates.
    pub open spec fn view_fields(self) -> Seq<(Seq<PartV>, TemplateV)> {
        Seq::new(self.fields@.len(), |i: int| (self.fields@[i].attr@, self.fields@[i].value.view_rec()))
    }

    /// Constructs a new `ObjectTemplate`.
    pub fn new() -> (r: Self)
        ensures
            r.fields@.len() == 0,
    {
        Self { fields: Vec::new() }
    }
}

/// An object template is viewed as the object of its fields.
pub proof fn lemma_object_template_view(o: ObjectTemplate)
    ensures
        ValueTemplate::Object(o).view_rec() == TemplateV::Object(o.view_fields()),
{
    assert(ValueTemplate::Object(o).view_rec()->Object_0 =~= o.view_fields());
}

}
