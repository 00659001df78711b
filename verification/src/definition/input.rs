//! Schema definitions as parsed, before validation.

use vstd::prelude::*;

pub use crate::definition::output::{
    BuiltInType, DefinedType, Enum, EnumChoice, Union, UnionChoice, enum_choice_view,
    union_choice_view,
};

verus! {

/// Represents the type of container for member.
#[derive(Debug)]
pub enum ContainerTemplate {
    /// Corresponds to `Vec`.
    Array,
    /// Corresponds to `BTreeMap` (with the name of the key type).
    BTreeMap(String),
    /// Corresponds to `HashMap` (with the name of the key type).
    HashMap(String),
    /// Corresponds to a type not contained in any container.
    Plain,
}

/// The view of a container template.
pub enum ContainerTemplateV {
    Array,
    BTreeMap(Seq<char>),
    HashMap(Seq<char>),
    Plain,
}

impl View for ContainerTemplate {
    type V = ContainerTemplateV;

    open spec fn view(&self) -> ContainerTemplateV {
        match self {
            ContainerTemplate::Array => ContainerTemplateV::Array,
            ContainerTemplate::BTreeMap(s) => ContainerTemplateV::BTreeMap(s@),
            ContainerTemplate::HashMap(s) => ContainerTemplateV::HashMap(s@),
            ContainerTemplate::Plain => ContainerTemplateV::Plain,
        }
    }
}

/// Helps in parsing and reporting errors related to structure member (database object field).
#[derive(Debug)]
pub struct MemberTemplate {
    /// Name to be used in generated code.
    pub rust_name: Option<String>,
    /// Name to be used in database queries.
    pub db_name: Option<String>,
    /// Name of the type.
    pub variant: Option<String>,
    /// Container the data is to be stored in.
    pub container: ContainerTemplate,
    /// Specifies if the member is optional.
    pub is_optional: bool,
    /// Specifies if an index should be created for the given database field.
    pub is_indexed: bool,
}

/// The view of a member template.
pub struct MemberTemplateV {
    pub rust_name: Option<Seq<char>>,
    pub db_name: Option<Seq<char>>,
    pub variant: Option<Seq<char>>,
    pub container: ContainerTemplateV,
    pub is_optional: bool,
    pub is_indexed: bool,
}

/// The view of an optional string.
pub open spec fn opt_view(s: Option<String>) -> Option<Seq<char>> {
    match s {
        Some(x) => Some(x@),
        None => None,
    }
}

impl View for MemberTemplate {
    type V = MemberTemplateV;

    open spec fn view(&self) -> MemberTemplateV {
        MemberTemplateV {
            rust_name: opt_view(self.rust_name),
            db_name: opt_view(self.db_name),
            variant: opt_view(self.variant),
            container: self.container@,
            is_optional: self.is_optional,
            is_indexed: self.is_indexed,
        }
    }
}

impl MemberTemplate {
    /// Constructs a new `MemberTemplate`.
    pub fn new() -> (r: Self)
        ensures
            r@ == (MemberTemplateV {
                rust_name: None,
                db_name: None,
                variant: None,
                container: ContainerTemplateV::Plain,
                is_optional: false,
                is_indexed: false,
            }),
    {
        Self {
            rust_name: None,
            db_name: None,
            variant: None,
            container: ContainerTemplate::Plain,
            is_optional: false,
            is_indexed: false,
        }
    }
}

/// Helps in parsing and reporting errors related to structures (database objects)
#[derive(Debug)]
pub struct StructTemplate {
    /// Name of the structure
    pub struct_name: String,
    /// Name of the collection. If specified this is the type of the main document stored in that
    /// collection. For embedded documents the collection name should be `None`.
    pub collection_name: Option<String>,
    /// List of all members of this structure (fields in the database object).
    pub members: Vec<MemberTemplate>,
}

/// The view of a structure template.
pub struct StructTemplateV {
    pub struct_name: Seq<char>,
    pub collection_name: Option<Seq<char>>,
    pub members: Seq<MemberTemplateV>,
}

impl View for StructTemplate {
    type V = StructTemplateV;

    open spec fn view(&self) -> StructTemplateV {
        StructTemplateV {
            struct_name: self.struct_name@,
            collection_name: opt_view(self.collection_name),
            members: self.members@.map_values(|m: MemberTemplate| m@),
        }
    }
}

/// Helps in parsing and reporting errors related to enums.
#[derive(Debug)]
pub struct EnumTemplate {
    /// Name of the enum.
    pub name: String,
    /// List of possible enum variants.
    pub choices: Vec<EnumChoice>,
}

impl EnumTemplate {
    /// Constructs a new `EnumTemplate`.
    pub fn new(name: String, choices: Vec<EnumChoice>) -> (r: Self)
        ensures
            r.name == name,
            r.choices == choices,
    {
        Self { name, choices }
    }

    /// The enum described by the template.
    pub fn into_enum(self) -> (r: Enum)
        ensures
            r.name.name == self.name,
            r.choices == self.choices,
    {
        Enum { name: DefinedType::new(self.name), choices: self.choices }
    }
}

/// Helps in parsing and reporting errors related to unions.
#[derive(Debug)]
pub struct UnionTemplate {
    /// Name of the union
    pub name: String,
    /// List of possible union variants.
    pub choices: Vec<UnionChoice>,
}

impl UnionTemplate {
    /// Constructs a new `UnionTemplate`.
    pub fn new(name: String, choices: Vec<UnionChoice>) -> (r: Self)
        ensures
            r.name == name,
            r.choices == choices,
    {
        Self { name, choices }
    }

    /// The union described by the template.
    pub fn into_union(self) -> (r: Union)
        ensures
            r.name.name == self.name,
            r.choices == self.choices,
    {
        Union { name: DefinedType::new(self.name), choices: self.choices }
    }
}

/// Holds information about parsed entities (structures, enums and unions).
#[derive(Debug)]
pub enum EntityTemplate {
    /// Holds information about parsed structure.
    Struct(StructTemplate),
    /// Holds information about parsed enum.
    Enum(EnumTemplate),
    /// Holds information about parsed union.
    Union(UnionTemplate),
}

/// The view of an entity template.
pub enum EntityTemplateV {
    Struct(StructTemplateV),
    Enum(Seq<char>, Seq<(Seq<char>, Seq<char>)>),
    Union(Seq<char>, Seq<(Seq<char>, Seq<char>, Seq<char>)>),
}

impl View for EntityTemplate {
    type V = EntityTemplateV;

    open spec fn view(&self) -> EntityTemplateV {
        match self {
            EntityTemplate::Struct(s) => EntityTemplateV::Struct(s@),
            EntityTemplate::Enum(e) => EntityTemplateV::Enum(
                e.name@,
                e.choices@.map_values(|c: EnumChoice| enum_choice_view(c)),
            ),
            EntityTemplate::Union(u) => EntityTemplateV::Union(
                u.name@,
                u.choices@.map_values(|c: UnionChoice| union_choice_view(c)),
            ),
        }
    }
}

impl EntityTemplate {
    /// Name of the entity.
    pub open spec fn spec_name(self) -> Seq<char> {
        match self {
            EntityTemplate::Struct(s) => s.struct_name@,
            EntityTemplate::Enum(e) => e.name@,
            EntityTemplate::Union(u) => u.name@,
        }
    }

    /// Returns the name of the entity.
    pub fn name(&self) -> (r: &str)
        ensures
            r@ == self.spec_name(),
    {
        match self {
            EntityTemplate::Struct(s) => s.struct_name.as_str(),
            EntityTemplate::Enum(e) => e.name.as_str(),
            EntityTemplate::Union(u) => u.name.as_str(),
        }
    }
}

/// Helps parsing enum- and union-type variants.
#[derive(Debug)]
pub struct Choices {
    /// List of enum-type variants (without any type).
    pub enum_choices: Vec<EnumChoice>,
    /// List of union-type variants (referencing a structure).
    pub union_choices: Vec<UnionChoice>,
}

impl Choices {
    /// Constructs new `Choices`.
    pub fn new() -> (r: Self)
        ensures
            r.enum_choices@.len() == 0,
            r.union_choices@.len() == 0,
    {
        Self { enum_choices: Vec::new(), union_choices: Vec::new() }
    }
}

}
