//! The schema: structures, enums and unions describing the documents stored in the database.

use vstd::prelude::*;

use crate::text::{chars_of, concat, copy_string, push_char, starts_with, str_eq};

verus! {

/// Represents a parsing error pointing to a part that failed aiding the error handler display pin
/// the error message to correct place in the code.
#[derive(Debug)]
pub enum ParseError {
    /// Error parsing rust name.
    RustName(String),
    /// Error parsing database name.
    DbName(String),
    /// Error parsing the type name.
    Type(String),
}

/// Represent build-in (mongodb) type.
#[derive(Clone, Copy, Debug, PartialEq, Eq)]
pub enum BuiltInType {
    /// Corresponds to a floating point.
    F64,
    /// Corresponds to a string.
    String,
    /// Corresponds to an object ID.
    ObjectId,
    /// Corresponds to a boolean value.
    Bool,
    /// Corresponds to a date.
    Date,
    /// Corresponds to a 32-bit integer.
    I32,
    /// Corresponds to a 64-bit integer.
    I64,
    /// Corresponds to a BSON object.
    Bson,
}

/// The type names of the schema language and the built-in types they denote.
pub open spec fn builtin_of_name(name: Seq<char>) -> Option<BuiltInType> {
    if name == "f64"@ {
        Some(BuiltInType::F64)
    } else if name == "String"@ {
        Some(BuiltInType::String)
    } else if name == "ObjectId"@ {
        Some(BuiltInType::ObjectId)
    } else if name == "bool"@ {
        Some(BuiltInType::Bool)
    } else if name == "Date"@ {
        Some(BuiltInType::Date)
    } else if name == "i32"@ {
        Some(BuiltInType::I32)
    } else if name == "i64"@ {
        Some(BuiltInType::I64)
    } else if name == "Bson"@ {
        Some(BuiltInType::Bson)
    } else {
        None
    }
}

impl BuiltInType {
    /// Constructs `BuiltInType` enum from string.
    pub fn from_name(name: &str) -> (r: Result<Self, ()>)
        ensures
            match builtin_of_name(name@) {
                Some(t) => r == Ok::<BuiltInType, ()>(t),
                None => r is Err,
            },
    {
        if str_eq(name, "f64") {
            Ok(BuiltInType::F64)
        } else if str_eq(name, "String") {
            Ok(BuiltInType::String)
        } else if str_eq(name, "ObjectId") {
            Ok(BuiltInType::ObjectId)
        } else if str_eq(name, "bool") {
            Ok(BuiltInType::Bool)
        } else if str_eq(name, "Date") {
            Ok(BuiltInType::Date)
        } else if str_eq(name, "i32") {
            Ok(BuiltInType::I32)
        } else if str_eq(name, "i64") {
            Ok(BuiltInType::I64)
        } else if str_eq(name, "Bson") {
            Ok(BuiltInType::Bson)
        } else {
            Err(())
        }
    }

    /// Only strings and object IDs can be indexed.
    pub open spec fn spec_allows_indexing(self) -> bool {
        self == BuiltInType::String || self == BuiltInType::ObjectId
    }

    /// Specifies if the given type supports indexing.
    pub fn allows_indexing(&self) -> (r: bool)
        ensures
            r == self.spec_allows_indexing(),
    {
        match self {
            BuiltInType::String | BuiltInType::ObjectId => true,
            _ => false,
        }
    }

    /// Name of the `Data` type.
    pub open spec fn spec_to_data(self) -> Seq<char> {
        match self {
            BuiltInType::F64 => "f64"@,
            BuiltInType::String => "String"@,
            BuiltInType::ObjectId => "huus::types::ObjectId"@,
            BuiltInType::Bool => "bool"@,
            BuiltInType::Date => "huus::types::Date"@,
            BuiltInType::I32 => "i32"@,
            BuiltInType::I64 => "i64"@,
            BuiltInType::Bson => "bson::Document"@,
        }
    }

    /// Returns a name of `Data` type.
    pub fn to_data(&self) -> (r: &'static str)
        ensures
            r@ == self.spec_to_data(),
    {
        match self {
            BuiltInType::F64 => "f64",
            BuiltInType::String => "String",
            BuiltInType::ObjectId => "huus::types::ObjectId",
            BuiltInType::Bool => "bool",
            BuiltInType::Date => "huus::types::Date",
            BuiltInType::I32 => "i32",
            BuiltInType::I64 => "i64",
            BuiltInType::Bson => "bson::Document",
        }
    }

    /// Name of the `Filter` type.
    pub open spec fn spec_to_filter(self) -> Seq<char> {
        match self {
            BuiltInType::F64 => "huus::filters::F64Entry"@,
            BuiltInType::String => "huus::filters::StringEntry"@,
            BuiltInType::ObjectId => "huus::filters::ObjectIdEntry"@,
            BuiltInType::Bool => "huus::filters::BooleanEntry"@,
            BuiltInType::Date => "huus::filters::DateEntry"@,
            BuiltInType::I32 => "huus::filters::I32Entry"@,
            BuiltInType::I64 => "huus::filters::I64Entry"@,
            BuiltInType::Bson => "huus::filters::BsonEntry"@,
        }
    }

    /// Returns a name of `Filter` type.
    pub fn to_filter(&self) -> (r: &'static str)
        ensures
            r@ == self.spec_to_filter(),
    {
        match self {
            BuiltInType::F64 => "huus::filters::F64Entry",
            BuiltInType::String => "huus::filters::StringEntry",
            BuiltInType::ObjectId => "huus::filters::ObjectIdEntry",
            BuiltInType::Bool => "huus::filters::BooleanEntry",
            BuiltInType::Date => "huus::filters::DateEntry",
            BuiltInType::I32 => "huus::filters::I32Entry",
            BuiltInType::I64 => "huus::filters::I64Entry",
            BuiltInType::Bson => "huus::filters::BsonEntry",
        }
    }

    /// Returns a name of `Value` type (the same as the `Data` type).
    pub fn to_value(&self) -> (r: &'static str)
        ensures
            r@ == self.spec_to_data(),
    {
        self.to_data()
    }

    /// Name of the `Update` type.
    pub open spec fn spec_to_update(self) -> Seq<char> {
        match self {
            BuiltInType::F64 => "huus::updates::F64Entry"@,
            BuiltInType::String => "huus::updates::StringEntry"@,
            BuiltInType::ObjectId => "huus::updates::ObjectIdEntry"@,
            BuiltInType::Bool => "huus::updates::BooleanEntry"@,
            BuiltInType::Date => "huus::updates::DateEntry"@,
            BuiltInType::I32 => "huus::updates::I32Entry"@,
            BuiltInType::I64 => "huus::updates::I64Entry"@,
            BuiltInType::Bson => "huus::updates::BsonEntry"@,
        }
    }

    /// Returns a name of `Update` type.
    pub fn to_update(&self) -> (r: &'static str)
        ensures
            r@ == self.spec_to_update(),
    {
        match self {
            BuiltInType::F64 => "huus::updates::F64Entry",
            BuiltInType::String => "huus::updates::StringEntry",
            BuiltInType::ObjectId => "huus::updates::ObjectIdEntry",
            BuiltInType::Bool => "huus::updates::BooleanEntry",
            BuiltInType::Date => "huus::updates::DateEntry",
            BuiltInType::I32 => "huus::updates::I32Entry",
            BuiltInType::I64 => "huus::updates::I64Entry",
            BuiltInType::Bson => "huus::updates::BsonEntry",
        }
    }

    /// Name of the document getter for the type.
    pub open spec fn spec_from_doc_getter(self) -> Seq<char> {
        match self {
            BuiltInType::F64 => "get_f64"@,
            BuiltInType::String => "get_str"@,
            BuiltInType::ObjectId => "get_object_id"@,
            BuiltInType::Bool => "get_bool"@,
            BuiltInType::Date => "get_utc_datetime"@,
            BuiltInType::I32 => "get_i32"@,
            BuiltInType::I64 => "get_i64"@,
            BuiltInType::Bson => "get_document"@,
        }
    }

    /// Returns name of `bson::Bson` getter for the type represented by this structure.
    pub fn from_doc_getter(&self) -> (r: &'static str)
        ensures
            r@ == self.spec_from_doc_getter(),
    {
        match self {
            BuiltInType::F64 => "get_f64",
            BuiltInType::String => "get_str",
            BuiltInType::ObjectId => "get_object_id",
            BuiltInType::Bool => "get_bool",
            BuiltInType::Date => "get_utc_datetime",
            BuiltInType::I32 => "get_i32",
            BuiltInType::I64 => "get_i64",
            BuiltInType::Bson => "get_document",
        }
    }

    /// Code converting a BSON value into the type.
    pub open spec fn spec_to_conversion(self) -> Seq<char> {
        match self {
            BuiltInType::F64 => "value"@,
            BuiltInType::String => "value.to_string()"@,
            BuiltInType::ObjectId => "value.clone()"@,
            BuiltInType::Bool => "value"@,
            BuiltInType::Date => "value.clone()"@,
            BuiltInType::I32 => "value"@,
            BuiltInType::I64 => "value"@,
            BuiltInType::Bson => "value.clone()"@,
        }
    }

    /// Returns a code to converting thus BSON value to the underlying type.
    pub fn to_conversion(&self) -> (r: &'static str)
        ensures
            r@ == self.spec_to_conversion(),
    {
        match self {
            BuiltInType::F64 => "value",
            BuiltInType::String => "value.to_string()",
            BuiltInType::ObjectId => "value.clone()",
            BuiltInType::Bool => "value",
            BuiltInType::Date => "value.clone()",
            BuiltInType::I32 => "value",
            BuiltInType::I64 => "value",
            BuiltInType::Bson => "value.clone()",
        }
    }
}

/// Represents a used-defined type.
#[derive(Debug)]
pub struct DefinedType {
    /// Name of the user-defined type.
    pub name: String,
}

impl DefinedType {
    /// Constructs a new `DefinedType`.
    pub fn new(name: String) -> (r: Self)
        ensures
            r.name == name,
    {
        Self { name }
    }

    /// Returns a copy of this type name.
    pub fn duplicate(&self) -> (r: Self)
        ensures
            r.name@ == self.name@,
    {
        DefinedType { name: copy_string(self.name.as_str()) }
    }

    /// Returns a name of `Data` type.
    pub fn to_data(&self) -> (r: String)
        ensures
            r@ == self.name@ + "Data"@,
    {
        concat(self.name.as_str(), "Data")
    }

    /// Returns a name of `Insert` type.
    pub fn to_insert(&self) -> (r: String)
        ensures
            r@ == self.name@ + "Insert"@,
    {
        concat(self.name.as_str(), "Insert")
    }

    /// Returns a name of `Filter` type.
    pub fn to_filter(&self) -> (r: String)
        ensures
            r@ == self.name@ + "Filter"@,
    {
        concat(self.name.as_str(), "Filter")
    }

    /// Returns a name of `Value` type.
    pub fn to_value(&self) -> (r: String)
        ensures
            r@ == self.name@ + "Value"@,
    {
        concat(self.name.as_str(), "Value")
    }

    /// Returns a name of `Update` type.
    pub fn to_update(&self) -> (r: String)
        ensures
            r@ == self.name@ + "Update"@,
    {
        concat(self.name.as_str(), "Update")
    }

    /// Compares the type name with the given name.
    pub fn eq(&self, name: &str) -> (r: bool)
        ensures
            r == (self.name@ == name@),
    {
        str_eq(self.name.as_str(), name)
    }
}

/// Writes `prefix`, `a` and `>`: a generic type with one argument.
fn generic1(prefix: &str, a: &str) -> (r: String)
    ensures
        r@ == prefix@ + a@ + ">"@,
{
    let s = concat(prefix, a);
    let r = concat(s.as_str(), ">");
    assert(r@ =~= prefix@ + a@ + ">"@);
    r
}

/// Writes `prefix`, `a`, `, `, `b` and `>`: a generic type with two arguments.
fn generic2(prefix: &str, a: &str, b: &str) -> (r: String)
    ensures
        r@ == prefix@ + a@ + ", "@ + b@ + ">"@,
{
    let s = concat(prefix, a);
    let s = concat(s.as_str(), ", ");
    let s = concat(s.as_str(), b);
    let r = concat(s.as_str(), ">");
    assert(r@ =~= prefix@ + a@ + ", "@ + b@ + ">"@);
    r
}

/// Represents a name of given type and the way it was defined.
#[derive(Debug)]
pub enum Variant {
    /// Corresponds to a built-in type.
    Field(BuiltInType),
    /// Corresponds to a user-defined structure.
    Struct(DefinedType),
    /// Corresponds to a user-defined enum.
    Enum(DefinedType),
    /// Corresponds to a user-defined union.
    Union(DefinedType),
}

impl Variant {
    /// Only some built-in types can be indexed.
    pub open spec fn spec_allows_indexing(self) -> bool {
        match self {
            Variant::Field(field) => field.spec_allows_indexing(),
            _ => false,
        }
    }

    /// Specifies if the given type supports indexing.
    pub fn allows_indexing(&self) -> (r: bool)
        ensures
            r == self.spec_allows_indexing(),
    {
        match self {
            Variant::Field(field) => field.allows_indexing(),
            _ => false,
        }
    }

    /// Returns a copy of the variant.
    pub fn duplicate(&self) -> (r: Self)
        ensures
            r@ == self@,
    {
        match self {
            Variant::Field(field) => Variant::Field(*field),
            Variant::Struct(name) => Variant::Struct(name.duplicate()),
            Variant::Enum(name) => Variant::Enum(name.duplicate()),
            Variant::Union(name) => Variant::Union(name.duplicate()),
        }
    }

    /// Name of the `Data` type.
    pub open spec fn spec_to_data(self) -> Seq<char> {
        match self {
            Variant::Field(field) => field.spec_to_data(),
            Variant::Struct(name) => name.name@ + "Data"@,
            Variant::Enum(name) => name.name@ + "Data"@,
            Variant::Union(name) => name.name@ + "Data"@,
        }
    }

    /// Returns a name of `Data` type.
    pub fn to_data(&self) -> (r: String)
        ensures
            r@ == self.spec_to_data(),
    {
        match self {
            Variant::Field(field) => copy_string(field.to_data()),
            Variant::Struct(name) => name.to_data(),
            Variant::Enum(name) => name.to_data(),
            Variant::Union(name) => name.to_data(),
        }
    }

    /// Name of the `Value` type.
    pub open spec fn spec_to_value(self) -> Seq<char> {
        match self {
            Variant::Field(field) => field.spec_to_data(),
            Variant::Struct(name) => name.name@ + "Value"@,
            Variant::Enum(name) => name.name@ + "Value"@,
            Variant::Union(name) => name.name@ + "Value"@,
        }
    }

    /// Returns a name of `Value` type.
    pub fn to_value(&self) -> (r: String)
        ensures
            r@ == self.spec_to_value(),
    {
        match self {
            Variant::Field(field) => copy_string(field.to_value()),
            Variant::Struct(name) => name.to_value(),
            Variant::Enum(name) => name.to_value(),
            Variant::Union(name) => name.to_value(),
        }
    }

    /// Short name of the `Filter` type.
    pub open spec fn spec_to_short_filter(self) -> Seq<char> {
        match self {
            Variant::Field(field) => field.spec_to_filter(),
            Variant::Struct(name) => name.name@ + "Filter"@,
            Variant::Enum(name) => name.name@ + "Data"@,
            Variant::Union(name) => name.name@ + "Filter"@,
        }
    }

    /// Returns a short version of name of `Filter` type.
    pub fn to_short_filter(&self) -> (r: String)
        ensures
            r@ == self.spec_to_short_filter(),
    {
        match self {
            Variant::Field(field) => copy_string(field.to_filter()),
            Variant::Struct(name) => name.to_filter(),
            Variant::Enum(name) => name.to_data(),
            Variant::Union(name) => name.to_filter(),
        }
    }

    /// Short name of the `Update` type.
    pub open spec fn spec_to_short_update(self) -> Seq<char> {
        match self {
            Variant::Field(field) => field.spec_to_update(),
            Variant::Struct(name) => name.name@ + "Update"@,
            Variant::Enum(name) => name.name@ + "Update"@,
            Variant::Union(name) => name.name@ + "Update"@,
        }
    }

    /// Returns a short version of name of `Update` type.
    pub fn to_short_update(&self) -> (r: String)
        ensures
            r@ == self.spec_to_short_update(),
    {
        match self {
            Variant::Field(field) => copy_string(field.to_update()),
            Variant::Struct(name) => name.to_update(),
            Variant::Enum(name) => name.to_update(),
            Variant::Union(name) => name.to_update(),
        }
    }

    /// Name of the document getter for the type.
    pub open spec fn spec_from_doc_getter(self) -> Seq<char> {
        match self {
            Variant::Field(field) => field.spec_from_doc_getter(),
            Variant::Struct(_) => "get_document"@,
            Variant::Enum(_) => "get_str"@,
            Variant::Union(_) => "get_document"@,
        }
    }

    /// Returns name of `bson::Bson` getter for the type represented by this structure.
    pub fn from_doc_getter(&self) -> (r: &'static str)
        ensures
            r@ == self.spec_from_doc_getter(),
    {
        match self {
            Variant::Field(field) => field.from_doc_getter(),
            Variant::Struct(_) => "get_document",
            Variant::Enum(_) => "get_str",
            Variant::Union(_) => "get_document",
        }
    }

    /// Long name of the `Filter` type: the entry type written for a plain member.
    pub open spec fn spec_to_long_filter(self) -> Seq<char> {
        match self {
            Variant::Field(field) => field.spec_to_filter(),
            Variant::Struct(name) => "huus::filters::ObjectEntry<"@ + (name.name@ + "Filter"@) + ", "@
                + (name.name@ + "Data"@) + ">"@,
            Variant::Enum(name) => "huus::filters::EnumEntry<"@ + (name.name@ + "Data"@) + ">"@,
            Variant::Union(name) => "huus::filters::ObjectEntry<"@ + (name.name@ + "Filter"@) + ", "@
                + (name.name@ + "Data"@) + ">"@,
        }
    }

    /// Returns a long version of name of `Filter` type.
    pub fn to_long_filter(&self) -> (r: String)
        ensures
            r@ == self.spec_to_long_filter(),
    {
        match self {
            Variant::Field(field) => copy_string(field.to_filter()),
            Variant::Struct(name) => generic2(
                "huus::filters::ObjectEntry<",
                name.to_filter().as_str(),
                name.to_data().as_str(),
            ),
            Variant::Enum(name) => generic1("huus::filters::EnumEntry<", name.to_data().as_str()),
            Variant::Union(name) => generic2(
                "huus::filters::ObjectEntry<",
                name.to_filter().as_str(),
                name.to_data().as_str(),
            ),
        }
    }

    /// Long name of the `Update` type: the entry type written for a plain member.
    pub open spec fn spec_to_long_update(self) -> Seq<char> {
        match self {
            Variant::Field(field) => field.spec_to_update(),
            Variant::Struct(name) => "huus::updates::ObjectEntry<"@ + (name.name@ + "Update"@) + ", "@
                + (name.name@ + "Value"@) + ">"@,
            Variant::Enum(name) => "huus::updates::EnumEntry<"@ + (name.name@ + "Value"@) + ">"@,
            Variant::Union(name) => "huus::updates::ObjectEntry<"@ + (name.name@ + "Update"@) + ", "@
                + (name.name@ + "Value"@) + ">"@,
        }
    }

    /// Returns a long version of name of `Update` type.
    pub fn to_long_update(&self) -> (r: String)
        ensures
            r@ == self.spec_to_long_update(),
    {
        match self {
            Variant::Field(field) => copy_string(field.to_update()),
            Variant::Struct(name) => generic2(
                "huus::updates::ObjectEntry<",
                name.to_update().as_str(),
                name.to_value().as_str(),
            ),
            Variant::Enum(name) => generic1("huus::updates::EnumEntry<", name.to_value().as_str()),
            Variant::Union(name) => generic2(
                "huus::updates::ObjectEntry<",
                name.to_update().as_str(),
                name.to_value().as_str(),
            ),
        }
    }

    /// The code converting a BSON value named `value` to the type.
    pub open spec fn spec_to_conversion(self) -> Seq<char> {
        match self {
            Variant::Field(field) => field.spec_to_conversion(),
            Variant::Struct(name) => name.name@ + "Data"@ + "::from_doc(value.clone())?"@,
            Variant::Enum(name) => name.name@ + "Data"@ + "::from_str(&value)?"@,
            Variant::Union(name) => name.name@ + "Data"@ + "::from_doc(value.clone())?"@,
        }
    }

    /// Returns a code to converting thus BSON value to the underlying type.
    pub fn to_conversion(&self) -> (r: String)
        ensures
            r@ == self.spec_to_conversion(),
    {
        match self {
            Variant::Field(field) => copy_string(field.to_conversion()),
            Variant::Struct(name) => concat(name.to_data().as_str(), "::from_doc(value.clone())?"),
            Variant::Enum(name) => concat(name.to_data().as_str(), "::from_str(&value)?"),
            Variant::Union(name) => concat(name.to_data().as_str(), "::from_doc(value.clone())?"),
        }
    }
}

/// The kind and name of a type.
pub enum VariantV {
    Field(BuiltInType),
    Struct(Seq<char>),
    Enum(Seq<char>),
    Union(Seq<char>),
}

impl View for Variant {
    type V = VariantV;

    open spec fn view(&self) -> VariantV {
        match self {
            Variant::Field(b) => VariantV::Field(*b),
            Variant::Struct(n) => VariantV::Struct(n.name@),
            Variant::Enum(n) => VariantV::Enum(n.name@),
            Variant::Union(n) => VariantV::Union(n.name@),
        }
    }
}

/// The kind of a container and the type of its keys.
pub enum ContainerV {
    Array,
    BTreeMap(VariantV),
    HashMap(VariantV),
    Plain,
}

impl View for Container {
    type V = ContainerV;

    open spec fn view(&self) -> ContainerV {
        match self {
            Container::Array => ContainerV::Array,
            Container::BTreeMap(v) => ContainerV::BTreeMap(v@),
            Container::HashMap(v) => ContainerV::HashMap(v@),
            Container::Plain => ContainerV::Plain,
        }
    }
}

/// Represents the type of container for member.
#[derive(Debug)]
pub enum Container {
    /// Corresponds to `Vec`.
    Array,
    /// Corresponds to `BTreeMap`.
    BTreeMap(Variant),
    /// Corresponds to `HashMap`.
    HashMap(Variant),
    /// Corresponds to a type not contained in any container.
    Plain,
}

impl Container {
    /// Returns `true` if the type is not contained in any container.
    pub fn is_plain(&self) -> (r: bool)
        ensures
            r == (*self is Plain),
    {
        match self {
            Container::Plain => true,
            _ => false,
        }
    }

    /// Returns `true` if the type is inside an array.
    pub fn is_array(&self) -> (r: bool)
        ensures
            r == (*self is Array),
    {
        match self {
            Container::Array => true,
            _ => false,
        }
    }

    /// Returns a copy of the container.
    pub fn duplicate(&self) -> (r: Self)
        ensures
            r@ == self@,
    {
        match self {
            Container::Array => Container::Array,
            Container::BTreeMap(v) => Container::BTreeMap(v.duplicate()),
            Container::HashMap(v) => Container::HashMap(v.duplicate()),
            Container::Plain => Container::Plain,
        }
    }
}

/// Represents a structure member (database object field).
#[derive(Debug)]
pub struct Member {
    /// Name to be used in generated code.
    pub rust_name: String,
    /// Name to be used in database queries.
    pub db_name: String,
    /// Name of the type.
    pub variant: Variant,
    /// Container the data is to be stored in.
    pub container: Container,
    /// Specifies if the member is optional.
    pub is_optional: bool,
    /// Specifies if an index should be created for the given database field.
    pub is_indexed: bool,
}

/// Characters that `char::is_alphanumeric` accepts (Unicode alphabetic or numeric).
pub uninterp spec fn is_alphanumeric_char(c: char) -> bool;

/// `char::is_alphanumeric`.
#[verifier::external_body]
pub(crate) fn char_is_alphanumeric(c: char) -> (r: bool)
    ensures
        r == is_alphanumeric_char(c),
{
    c.is_alphanumeric()
}

/// Characters allowed in database names.
pub open spec fn is_db_name_char(c: char) -> bool {
    is_alphanumeric_char(c) || c == '_'
}

/// Index of the first character not allowed in a database name, if any.
pub open spec fn first_bad_db_char(name: Seq<char>) -> Option<int> {
    if exists|i: int| 0 <= i < name.len() && !is_db_name_char(#[trigger] name[i]) {
        Some(choose|i: int|
            0 <= i < name.len() && !is_db_name_char(#[trigger] name[i]) && (forall|j: int|
                0 <= j < i ==> is_db_name_char(#[trigger] name[j])))
    } else {
        None
    }
}

/// The prefix that member names cannot start with.
pub open spec fn has_forbidden_prefix(name: Seq<char>) -> bool {
    name.len() >= "_huus"@.len() && name.subrange(0, "_huus"@.len() as int) == "_huus"@
}

/// Message reported for a character not allowed in a database name.
pub open spec fn bad_db_char_message(c: char) -> Seq<char> {
    "Field name can contain only alphanumerics and underscore, but '"@ + seq![c] + "' was used"@
}

impl Member {
    /// Constructs a new `Member`.
    pub fn new(
        rust_name: String,
        db_name: String,
        variant: Variant,
        container: Container,
        is_optional: bool,
        is_indexed: bool,
    ) -> (r: Result<Self, ParseError>)
        ensures
            has_forbidden_prefix(rust_name@) ==> (r matches Err(ParseError::RustName(m))
                && m@ == "Member name cannot start with '_huus'"@),
            !has_forbidden_prefix(rust_name@) && first_bad_db_char(db_name@) is Some
                ==> (r matches Err(ParseError::DbName(m)) && m@ == bad_db_char_message(
                db_name@[first_bad_db_char(db_name@)->0],
            )),
            !has_forbidden_prefix(rust_name@) && first_bad_db_char(db_name@) is None && is_indexed
                && !variant.spec_allows_indexing() ==> (r matches Err(ParseError::Type(m)) && m@
                == "Indexing not supported for this type"@),
            !has_forbidden_prefix(rust_name@) && first_bad_db_char(db_name@) is None && !(
            is_indexed && !variant.spec_allows_indexing()) ==> (r matches Ok(m) && m == (Member {
                rust_name,
                db_name,
                variant,
                container,
                is_optional,
                is_indexed,
            })),
    {
        // Check if the name is allowed
        if starts_with(rust_name.as_str(), "_huus") {
            return Err(ParseError::RustName(copy_string("Member name cannot start with '_huus'")));
        }
        // Check if the database name contains only allowed characters
        let chars = chars_of(db_name.as_str());
        let mut i: usize = 0;
        while i < chars.len()
            invariant
                chars@ == db_name@,
                !has_forbidden_prefix(rust_name@),
                i <= chars@.len(),
                forall|j: int| 0 <= j < i ==> is_db_name_char(#[trigger] chars@[j]),
            decreases chars@.len() - i,
        {
            let c = chars[i];
            if !char_is_alphanumeric(c) && c != '_' {
                let mut msg = copy_string(
                    "Field name can contain only alphanumerics and underscore, but '",
                );
                push_char(&mut msg, c);
                let msg = concat(msg.as_str(), "' was used");
                assert(msg@ == bad_db_char_message(c));
                proof {
                    let k = first_bad_db_char(db_name@)->0;
                    assert(exists|i: int| 0 <= i < db_name@.len() && !is_db_name_char(#[trigger] db_name@[i]));
                    assert(k == i as int) by {
                        if k < i {
                            assert(is_db_name_char(chars@[k]));
                        } else if k > i {
                            assert(is_db_name_char(db_name@[i as int]));
                        }
                    }
                }
                return Err(ParseError::DbName(msg));
            }
            i = i + 1;
        }
        // Check if indexing is requested only for types supporting indexing
        if is_indexed && !variant.allows_indexing() {
            return Err(ParseError::Type(copy_string("Indexing not supported for this type")));
        }
        Ok(Member { rust_name, db_name, variant, container, is_optional, is_indexed })
    }

    /// Name of the `Data` type of the member.
    pub open spec fn spec_to_data(self) -> Seq<char> {
        let variant = self.variant.spec_to_data();
        match self.container {
            Container::Array => "Vec<"@ + variant + ">"@,
            Container::HashMap(key) => "std::collections::HashMap<"@ + key.spec_to_data() + ", "@
                + variant + ">"@,
            Container::BTreeMap(key) => "std::collections::BTreeMap<"@ + key.spec_to_data() + ", "@
                + variant + ">"@,
            Container::Plain => variant,
        }
    }

    /// Returns a name of `Data` type.
    pub fn to_data(&self) -> (r: String)
        ensures
            r@ == self.spec_to_data(),
    {
        let variant = self.variant.to_data();
        match &self.container {
            Container::Array => generic1("Vec<", variant.as_str()),
            Container::HashMap(key) => generic2(
                "std::collections::HashMap<",
                key.to_data().as_str(),
                variant.as_str(),
            ),
            Container::BTreeMap(key) => generic2(
                "std::collections::BTreeMap<",
                key.to_data().as_str(),
                variant.as_str(),
            ),
            Container::Plain => variant,
        }
    }

    /// Name of the `Filter` type of the member.
    pub open spec fn spec_to_filter(self) -> Seq<char> {
        match self.container {
            Container::Array => "huus::filters::ArrayEntry<"@ + self.variant.spec_to_short_filter()
                + ", "@ + self.variant.spec_to_data() + ">"@,
            Container::BTreeMap(key) => "huus::filters::BTreeMapEntry<"@ + key.spec_to_data() + ", "@
                + self.variant.spec_to_data() + ">"@,
            Container::HashMap(key) => "huus::filters::HashMapEntry<"@ + key.spec_to_data() + ", "@
                + self.variant.spec_to_data() + ">"@,
            Container::Plain => self.variant.spec_to_long_filter(),
        }
    }

    /// Returns a name of `Filter` type.
    pub fn to_filter(&self) -> (r: String)
        ensures
            r@ == self.spec_to_filter(),
    {
        match &self.container {
            Container::Array => generic2(
                "huus::filters::ArrayEntry<",
                self.variant.to_short_filter().as_str(),
                self.variant.to_data().as_str(),
            ),
            Container::BTreeMap(key) => generic2(
                "huus::filters::BTreeMapEntry<",
                key.to_data().as_str(),
                self.variant.to_data().as_str(),
            ),
            Container::HashMap(key) => generic2(
                "huus::filters::HashMapEntry<",
                key.to_data().as_str(),
                self.variant.to_data().as_str(),
            ),
            Container::Plain => self.variant.to_long_filter(),
        }
    }

    /// Name of the `Value` type of the member.
    pub open spec fn spec_to_value(self) -> Seq<char> {
        match self.container {
            Container::Array => "huus::values::ArrayEntry<"@ + self.variant.spec_to_value() + ">"@,
            Container::HashMap(key) => "huus::values::Entry<"@ + ("std::collections::HashMap<"@
                + key.spec_to_value() + ", "@ + self.variant.spec_to_data() + ">"@) + ">"@,
            Container::BTreeMap(key) => "huus::values::Entry<"@ + ("std::collections::BTreeMap<"@
                + key.spec_to_value() + ", "@ + self.variant.spec_to_data() + ">"@) + ">"@,
            Container::Plain => "huus::values::Entry<"@ + self.variant.spec_to_value() + ">"@,
        }
    }

    /// Returns a name of `Value` type.
    pub fn to_value(&self) -> (r: String)
        ensures
            r@ == self.spec_to_value(),
    {
        match &self.container {
            Container::Array => generic1("huus::values::ArrayEntry<", self.variant.to_value().as_str()),
            Container::HashMap(key) => {
                let map = generic2(
                    "std::collections::HashMap<",
                    key.to_value().as_str(),
                    self.variant.to_data().as_str(),
                );
                generic1("huus::values::Entry<", map.as_str())
            },
            Container::BTreeMap(key) => {
                let map = generic2(
                    "std::collections::BTreeMap<",
                    key.to_value().as_str(),
                    self.variant.to_data().as_str(),
                );
                generic1("huus::values::Entry<", map.as_str())
            },
            Container::Plain => generic1("huus::values::Entry<", self.variant.to_value().as_str()),
        }
    }

    /// Name of the `Update` type of the member.
    pub open spec fn spec_to_update(self) -> Seq<char> {
        match self.container {
            Container::Array => "huus::updates::ArrayEntry<"@ + self.variant.spec_to_short_update()
                + ", "@ + self.variant.spec_to_value() + ">"@,
            Container::BTreeMap(key) => "huus::updates::BTreeMapEntry<"@ + key.spec_to_data() + ", "@
                + self.variant.spec_to_data() + ">"@,
            Container::HashMap(key) => "huus::updates::HashMapEntry<"@ + key.spec_to_data() + ", "@
                + self.variant.spec_to_data() + ">"@,
            Container::Plain => self.variant.spec_to_long_update(),
        }
    }

    /// Returns a name of `Update` type.
    pub fn to_update(&self) -> (r: String)
        ensures
            r@ == self.spec_to_update(),
    {
        match &self.container {
            Container::Array => generic2(
                "huus::updates::ArrayEntry<",
                self.variant.to_short_update().as_str(),
                self.variant.to_value().as_str(),
            ),
            Container::BTreeMap(key) => generic2(
                "huus::updates::BTreeMapEntry<",
                key.to_data().as_str(),
                self.variant.to_data().as_str(),
            ),
            Container::HashMap(key) => generic2(
                "huus::updates::HashMapEntry<",
                key.to_data().as_str(),
                self.variant.to_data().as_str(),
            ),
            Container::Plain => self.variant.to_long_update(),
        }
    }

    /// Name of the document getter for the member.
    pub open spec fn spec_from_doc_getter(self) -> Seq<char> {
        match self.container {
            Container::Array => "get_array"@,
            Container::HashMap(_) => "get_document"@,
            Container::BTreeMap(_) => "get_document"@,
            Container::Plain => self.variant.spec_from_doc_getter(),
        }
    }

    /// Returns name of `bson::Bson` getter for the type represented by this structure.
    pub fn from_doc_getter(&self) -> (r: &'static str)
        ensures
            r@ == self.spec_from_doc_getter(),
    {
        match &self.container {
            Container::Array => "get_array",
            Container::HashMap(_) => "get_document",
            Container::BTreeMap(_) => "get_document",
            Container::Plain => self.variant.from_doc_getter(),
        }
    }

    /// The code converting a BSON value named `value` to the member's type.
    pub open spec fn spec_to_conversion(self) -> Seq<char> {
        match self.container {
            Container::Plain => self.variant.spec_to_conversion(),
            _ => "value.clone().huus_into_struct()?"@,
        }
    }

    /// Returns a code to converting thus BSON value to the underlying type.
    pub fn to_conversion(&self) -> (r: String)
        ensures
            r@ == self.spec_to_conversion(),
    {
        match &self.container {
            Container::Plain => self.variant.to_conversion(),
            _ => copy_string("value.clone().huus_into_struct()?"),
        }
    }

    /// The code of the default value of the member's type, for containers only.
    pub open spec fn spec_to_default(self) -> Option<Seq<char>> {
        match self.container {
            Container::Array => Some("Vec::new()"@),
            Container::HashMap(_) => Some("std::collections::HashMap::new()"@),
            Container::BTreeMap(_) => Some("std::collections::BTreeMap::new()"@),
            Container::Plain => None,
        }
    }

    /// Returns a code initializing a default value of the underlying type.
    pub fn to_default(&self) -> (r: Option<&'static str>)
        ensures
            match r {
                Some(code) => self.spec_to_default() == Some(code@),
                None => self.spec_to_default() is None,
            },
    {
        match &self.container {
            Container::Array => Some("Vec::new()"),
            Container::HashMap(_) => Some("std::collections::HashMap::new()"),
            Container::BTreeMap(_) => Some("std::collections::BTreeMap::new()"),
            Container::Plain => None,
        }
    }
}


/// Represents an enum variant.
#[derive(Debug)]
pub struct EnumChoice {
    /// Name to be used in code.
    pub rust_name: String,
    /// Name to be used in database.
    pub db_name: String,
}

impl EnumChoice {
    /// Constructs a new `EnumChoice`.
    pub fn new(rust_name: String, db_name: String) -> (r: Self)
        ensures
            r.rust_name == rust_name,
            r.db_name == db_name,
    {
        Self { rust_name, db_name }
    }

    /// Returns a copy of the choice.
    pub fn duplicate(&self) -> (r: Self)
        ensures
            r.rust_name@ == self.rust_name@,
            r.db_name@ == self.db_name@,
    {
        Self {
            rust_name: copy_string(self.rust_name.as_str()),
            db_name: copy_string(self.db_name.as_str()),
        }
    }
}

/// Represents a union variant.
#[derive(Debug)]
pub struct UnionChoice {
    /// Name to be used in code.
    pub rust_name: String,
    /// Name to be used in database.
    pub db_name: String,
    /// Name of the corresponding structure.
    pub variant: DefinedType,
}

impl UnionChoice {
    /// Constructs a new `UnionChoice`.
    pub fn new(rust_name: String, db_name: String, variant: DefinedType) -> (r: Self)
        ensures
            r.rust_name == rust_name,
            r.db_name == db_name,
            r.variant == variant,
    {
        Self { rust_name, db_name, variant }
    }

    /// Returns a copy of the choice.
    pub fn duplicate(&self) -> (r: Self)
        ensures
            r.rust_name@ == self.rust_name@,
            r.db_name@ == self.db_name@,
            r.variant.name@ == self.variant.name@,
    {
        Self {
            rust_name: copy_string(self.rust_name.as_str()),
            db_name: copy_string(self.db_name.as_str()),
            variant: self.variant.duplicate(),
        }
    }
}

/// Represents a structure.
#[derive(Debug)]
pub struct Struct {
    /// Name of the structure.
    pub struct_name: DefinedType,
    /// Name of the collection. If specified this is the type of the main document stored in that
    /// collection. For embedded documents the collection name should be `None`.
    pub collection_name: Option<String>,
    /// List of all members of this structure (fields in the database object).
    pub members: Vec<Member>,
    /// List of fields (including fields in embedded documents) that should be indexed.
    pub indexed_fields: Vec<String>,
}

/// Represents an enum.
#[derive(Debug)]
pub struct Enum {
    /// Name of the enum.
    pub name: DefinedType,
    /// List of possible enum variants.
    pub choices: Vec<EnumChoice>,
}

impl Enum {
    /// Prepares a list of all possible enum values as represented in the database.
    pub fn to_db_names(&self) -> (r: Vec<String>)
        ensures
            r@.len() == self.choices@.len(),
            forall|i: int| 0 <= i < r@.len() ==> #[trigger] r@[i]@ == self.choices@[i].db_name@,
    {
        let mut result: Vec<String> = Vec::new();
        let mut i: usize = 0;
        while i < self.choices.len()
            invariant
                i <= self.choices@.len(),
                result@.len() == i,
                forall|j: int| 0 <= j < i ==> #[trigger] result@[j]@ == self.choices@[j].db_name@,
            decreases self.choices@.len() - i,
        {
            result.push(copy_string(self.choices[i].db_name.as_str()));
            i = i + 1;
        }
        result
    }
}

/// Represents an union.
#[derive(Debug)]
pub struct Union {
    /// Name of the union.
    pub name: DefinedType,
    /// List of possible union variants.
    pub choices: Vec<UnionChoice>,
}

/// Holds information about parsed entities (structures, enums and unions).
#[derive(Debug)]
pub enum Entity {
    /// Holds information about parsed structure.
    Struct(Struct),
    /// Holds information about parsed enum.
    Enum(Enum),
    /// Holds information about parsed union.
    Union(Union),
}

impl Entity {
    /// Name of the entity.
    pub open spec fn spec_name(self) -> Seq<char> {
        match self {
            Entity::Struct(s) => s.struct_name.name@,
            Entity::Enum(e) => e.name.name@,
            Entity::Union(u) => u.name.name@,
        }
    }

    /// Returns the name of the entity.
    pub fn name(&self) -> (r: &str)
        ensures
            r@ == self.spec_name(),
    {
        match self {
            Entity::Struct(s) => s.struct_name.name.as_str(),
            Entity::Enum(e) => e.name.name.as_str(),
            Entity::Union(u) => u.name.name.as_str(),
        }
    }
}

/// Index of the first entity with the given name.
pub open spec fn first_entity_named(entities: Seq<Entity>, name: Seq<char>) -> Option<int> {
    if exists|i: int| 0 <= i < entities.len() && #[trigger] entities[i].spec_name() == name {
        Some(choose|i: int|
            0 <= i < entities.len() && #[trigger] entities[i].spec_name() == name && (forall|j: int|
                0 <= j < i ==> #[trigger] entities[j].spec_name() != name))
    } else {
        None
    }
}

/// Whether the entity is the main document of the given collection.
pub open spec fn is_collection_struct(entity: Entity, name: Seq<char>) -> bool {
    match entity {
        Entity::Struct(s) => s.collection_name matches Some(c) && c@ == name,
        _ => false,
    }
}

/// Index of the first structure assigned to the given collection.
pub open spec fn first_collection_struct(entities: Seq<Entity>, name: Seq<char>) -> Option<int> {
    if exists|i: int| 0 <= i < entities.len() && is_collection_struct(#[trigger] entities[i], name) {
        Some(choose|i: int|
            0 <= i < entities.len() && is_collection_struct(#[trigger] entities[i], name) && (forall|
                j: int,
            | 0 <= j < i ==> !is_collection_struct(#[trigger] entities[j], name)))
    } else {
        None
    }
}

/// Holds information about all parsed entities.
#[derive(Debug)]
pub struct Schema {
    /// A list of all parsed entities.
    pub entities: Vec<Entity>,
}

impl Schema {
    /// Constructs a new `Schema`.
    pub fn new() -> (r: Self)
        ensures
            r.entities@.len() == 0,
    {
        Self { entities: Vec::new() }
    }

    /// Searches for the index of the entity with the given name.
    pub fn find_entity_index(&self, name: &str) -> (r: Option<usize>)
        ensures
            match first_entity_named(self.entities@, name@) {
                Some(k) => 0 <= k < self.entities@.len() && r == Some(k as usize),
                None => r is None,
            },
            r matches Some(j) ==> first_entity_named(self.entities@, name@) == Some(j as int) && j < self.entities@.len(),
    {
        let mut i: usize = 0;
        while i < self.entities.len()
            invariant
                i <= self.entities@.len(),
                forall|j: int| 0 <= j < i ==> #[trigger] self.entities@[j].spec_name() != name@,
            decreases self.entities@.len() - i,
        {
            if str_eq(self.entities[i].name(), name) {
                let ghost k = first_entity_named(self.entities@, name@)->0;
                proof {
                    assert(self.entities@[i as int].spec_name() == name@);
                    assert(k == i as int) by {
                        if k > i {
                            assert(self.entities@[i as int].spec_name() != name@);
                        }
                    }
                }
                return Some(i);
            }
            i = i + 1;
        }
        None
    }

    /// Searches for an entity with the given name.
    pub fn find_entity(&self, name: &str) -> (r: Option<&Entity>)
        ensures
            match first_entity_named(self.entities@, name@) {
                Some(i) => r matches Some(e) && *e == self.entities@[i],
                None => r is None,
            },
    {
        match self.find_entity_index(name) {
            Some(i) => Some(&self.entities[i]),
            None => None,
        }
    }

    /// Searches for a structure that corresponds to the main document in the given collection.
    pub fn find_entity_for_collection(&self, name: &str) -> (r: Option<&Struct>)
        ensures
            match first_collection_struct(self.entities@, name@) {
                Some(i) => r matches Some(s) && self.entities@[i] == Entity::Struct(*s),
                None => r is None,
            },
    {
        let mut i: usize = 0;
        while i < self.entities.len()
            invariant
                i <= self.entities@.len(),
                forall|j: int| 0 <= j < i ==> !is_collection_struct(#[trigger] self.entities@[j], name@),
            decreases self.entities@.len() - i,
        {
            match &self.entities[i] {
                Entity::Struct(struct_spec) => {
                    if let Some(collection_name) = &struct_spec.collection_name {
                        if str_eq(collection_name.as_str(), name) {
                            proof {
                                let k = first_collection_struct(self.entities@, name@)->0;
                                assert(is_collection_struct(self.entities@[i as int], name@));
                                assert(k == i as int) by {
                                    if k > i {
                                        assert(!is_collection_struct(self.entities@[i as int], name@));
                                    }
                                }
                            }
                            return Some(struct_spec);
                        }
                    }
                },
                _ => {},
            }
            i = i + 1;
        }
        None
    }
}


// -------------------------------------------------------------------------------------------------
// Views of the schema

/// Whether a type (given by its view) can be indexed.
pub open spec fn variant_allows_indexing(v: VariantV) -> bool {
    match v {
        VariantV::Field(b) => b.spec_allows_indexing(),
        _ => false,
    }
}

/// The view of a member.
pub struct MemberV {
    pub rust_name: Seq<char>,
    pub db_name: Seq<char>,
    pub variant: VariantV,
    pub container: ContainerV,
    pub is_optional: bool,
    pub is_indexed: bool,
}

impl View for Member {
    type V = MemberV;

    open spec fn view(&self) -> MemberV {
        MemberV {
            rust_name: self.rust_name@,
            db_name: self.db_name@,
            variant: self.variant@,
            container: self.container@,
            is_optional: self.is_optional,
            is_indexed: self.is_indexed,
        }
    }
}

/// The view of an enum choice: its Rust and database names.
pub open spec fn enum_choice_view(c: EnumChoice) -> (Seq<char>, Seq<char>) {
    (c.rust_name@, c.db_name@)
}

/// The view of a union choice: its Rust and database names and the name of its structure.
pub open spec fn union_choice_view(c: UnionChoice) -> (Seq<char>, Seq<char>, Seq<char>) {
    (c.rust_name@, c.db_name@, c.variant.name@)
}

/// The view of a structure.
pub struct StructV {
    pub name: Seq<char>,
    pub collection: Option<Seq<char>>,
    pub members: Seq<MemberV>,
    pub indexed: Seq<Seq<char>>,
}

/// The view of an entity.
pub enum EntityV {
    Struct(StructV),
    Enum(Seq<char>, Seq<(Seq<char>, Seq<char>)>),
    Union(Seq<char>, Seq<(Seq<char>, Seq<char>, Seq<char>)>),
}

impl EntityV {
    /// Name of the entity.
    pub open spec fn name(self) -> Seq<char> {
        match self {
            EntityV::Struct(s) => s.name,
            EntityV::Enum(n, _) => n,
            EntityV::Union(n, _) => n,
        }
    }
}

impl View for Struct {
    type V = StructV;

    open spec fn view(&self) -> StructV {
        StructV {
            name: self.struct_name.name@,
            collection: match self.collection_name {
                Some(c) => Some(c@),
                None => None,
            },
            members: self.members@.map_values(|m: Member| m@),
            indexed: self.indexed_fields@.map_values(|f: String| f@),
        }
    }
}

impl View for Entity {
    type V = EntityV;

    open spec fn view(&self) -> EntityV {
        match self {
            Entity::Struct(s) => EntityV::Struct(s@),
            Entity::Enum(e) => EntityV::Enum(
                e.name.name@,
                e.choices@.map_values(|c: EnumChoice| enum_choice_view(c)),
            ),
            Entity::Union(u) => EntityV::Union(
                u.name.name@,
                u.choices@.map_values(|c: UnionChoice| union_choice_view(c)),
            ),
        }
    }
}

impl View for Schema {
    type V = Seq<EntityV>;

    open spec fn view(&self) -> Seq<EntityV> {
        self.entities@.map_values(|e: Entity| e@)
    }
}

}
