//! Verification of a query (data, filter or update) against the schema.

use vstd::prelude::*;

use crate::definition::output::{
    BuiltInType, Container, ContainerV, Entity, Member, Schema, Struct, Union, Variant,
    first_entity_named,
};
use crate::formulation::input::{
    FieldTemplate, ObjectTemplate, TemplateV, ValueTemplate, lemma_object_template_view,
};
use crate::formulation::output::{
    Attribute, CodeType, Field, Object, Part, PartV, Value, ValueV, composed, part_is_operator,
    lemma_object_value_view,
};
use crate::definition::output::{DefinedType, VariantV, first_collection_struct};
use crate::text::{
    chars_of, concat, copy_string, is_float, is_float_text, lemma_signed_text_value_range,
    parse_signed, signed_text_value, str_eq,
};
use crate::types::{ObjectId, is_object_id_text, is_date_text, parses_as_date};

verus! {

// -------------------------------------------------------------------------------------------------
// Operators and conversions

/// Kind of an update query.
#[derive(Clone, Copy, Debug, PartialEq, Eq)]
pub enum UpdateType {
    /// Made of update operators.
    Update,
    /// A replacement document.
    Replacement,
}

/// Comparison operators of filter queries.
#[derive(Clone, Copy, Debug, PartialEq, Eq)]
pub enum QueryOperator {
    Eq,
    Gt,
    Gte,
    In,
    Lt,
    Lte,
    Ne,
    Nin,
}

impl QueryOperator {
    /// Whether the operator applies to a value of the given type and container.
    pub open spec fn spec_matches(self, builtin: BuiltInType, container: ContainerV) -> bool {
        match container {
            ContainerV::Plain => builtin != BuiltInType::Bson,
            ContainerV::Array => self == QueryOperator::In || self == QueryOperator::Nin,
            _ => false,
        }
    }

    /// Checks whether the operator applies to a value of the given type and container.
    pub fn matches(&self, builtin: &BuiltInType, container: &Container) -> (r: bool)
        ensures
            r == self.spec_matches(*builtin, container@),
    {
        if container.is_plain() {
            match builtin {
                BuiltInType::Bson => false,
                _ => true,
            }
        } else if container.is_array() {
            match self {
                QueryOperator::In | QueryOperator::Nin => true,
                _ => false,
            }
        } else {
            false
        }
    }
}

/// Update operators.
#[derive(Clone, Copy, Debug, PartialEq, Eq)]
pub enum UpdateOperator {
    Inc,
    Min,
    Max,
    Mul,
    CurrentDate,
    Rename,
    Unset,
    SetValue,
    SetOnInsert,
    AddToSet,
    Pop,
    Pull,
    Push,
    PullAll,
}

impl UpdateOperator {
    /// Operators that act on the elements of an array.
    pub open spec fn spec_escapes_container(self) -> bool {
        self == UpdateOperator::AddToSet || self == UpdateOperator::Pop || self
            == UpdateOperator::Pull || self == UpdateOperator::Push
    }

    /// Returns `true` for the operators that act on the elements of an array.
    pub fn escapes_container(&self) -> (r: bool)
        ensures
            r == self.spec_escapes_container(),
    {
        match self {
            UpdateOperator::AddToSet | UpdateOperator::Pop | UpdateOperator::Pull
            | UpdateOperator::Push => true,
            _ => false,
        }
    }
}

/// The kind of document a value is converted for.
#[derive(Clone, Copy, Debug, PartialEq, Eq)]
pub enum Conversion {
    Data,
    Filter,
    Replacement,
    Update(UpdateOperator),
}

impl Conversion {
    /// Conversions that act on the elements of an array.
    pub open spec fn spec_escapes_container(self) -> bool {
        match self {
            Conversion::Update(op) => op.spec_escapes_container(),
            _ => false,
        }
    }

    /// Returns `true` for the conversions that act on the elements of an array.
    pub fn escapes_container(&self) -> (r: bool)
        ensures
            r == self.spec_escapes_container(),
    {
        match self {
            Conversion::Update(operator) => operator.escapes_container(),
            _ => false,
        }
    }
}

/// The operator written by a text, if any.
pub open spec fn query_operator_of(s: Seq<char>) -> Option<QueryOperator> {
    if s == "$eq"@ {
        Some(QueryOperator::Eq)
    } else if s == "$gt"@ {
        Some(QueryOperator::Gt)
    } else if s == "$gte"@ {
        Some(QueryOperator::Gte)
    } else if s == "$in"@ {
        Some(QueryOperator::In)
    } else if s == "$lt"@ {
        Some(QueryOperator::Lt)
    } else if s == "$lte"@ {
        Some(QueryOperator::Lte)
    } else if s == "$ne"@ {
        Some(QueryOperator::Ne)
    } else if s == "$nin"@ {
        Some(QueryOperator::Nin)
    } else {
        None
    }
}

/// The update operator written by a text, if any.
pub open spec fn update_operator_of(s: Seq<char>) -> Option<UpdateOperator> {
    if s == "$addToSet"@ {
        Some(UpdateOperator::AddToSet)
    } else if s == "$currentDate"@ {
        Some(UpdateOperator::CurrentDate)
    } else if s == "$inc"@ {
        Some(UpdateOperator::Inc)
    } else if s == "$max"@ {
        Some(UpdateOperator::Max)
    } else if s == "$min"@ {
        Some(UpdateOperator::Min)
    } else if s == "$mul"@ {
        Some(UpdateOperator::Mul)
    } else if s == "$pop"@ {
        Some(UpdateOperator::Pop)
    } else if s == "$pull"@ {
        Some(UpdateOperator::Pull)
    } else if s == "$pullAll"@ {
        Some(UpdateOperator::PullAll)
    } else if s == "$push"@ {
        Some(UpdateOperator::Push)
    } else if s == "$rename"@ {
        Some(UpdateOperator::Rename)
    } else if s == "$set"@ {
        Some(UpdateOperator::SetValue)
    } else if s == "$setOnInsert"@ {
        Some(UpdateOperator::SetOnInsert)
    } else if s == "$unset"@ {
        Some(UpdateOperator::Unset)
    } else {
        None
    }
}

/// Reads the comparison operator of an attribute.
pub fn convert_query_operator(attr: &Attribute) -> (r: Option<QueryOperator>)
    ensures
        r == query_operator_of(composed(attr@)),
{
    let c = attr.to_composed();
    let s = c.as_str();
    if str_eq(s, "$eq") {
        Some(QueryOperator::Eq)
    } else if str_eq(s, "$gt") {
        Some(QueryOperator::Gt)
    } else if str_eq(s, "$gte") {
        Some(QueryOperator::Gte)
    } else if str_eq(s, "$in") {
        Some(QueryOperator::In)
    } else if str_eq(s, "$lt") {
        Some(QueryOperator::Lt)
    } else if str_eq(s, "$lte") {
        Some(QueryOperator::Lte)
    } else if str_eq(s, "$ne") {
        Some(QueryOperator::Ne)
    } else if str_eq(s, "$nin") {
        Some(QueryOperator::Nin)
    } else {
        None
    }
}

/// Reads the update operator of an attribute.
pub fn convert_update_operator(attr: &Attribute) -> (r: Option<UpdateOperator>)
    ensures
        r == update_operator_of(composed(attr@)),
{
    let c = attr.to_composed();
    let s = c.as_str();
    if str_eq(s, "$addToSet") {
        Some(UpdateOperator::AddToSet)
    } else if str_eq(s, "$currentDate") {
        Some(UpdateOperator::CurrentDate)
    } else if str_eq(s, "$inc") {
        Some(UpdateOperator::Inc)
    } else if str_eq(s, "$max") {
        Some(UpdateOperator::Max)
    } else if str_eq(s, "$min") {
        Some(UpdateOperator::Min)
    } else if str_eq(s, "$mul") {
        Some(UpdateOperator::Mul)
    } else if str_eq(s, "$pop") {
        Some(UpdateOperator::Pop)
    } else if str_eq(s, "$pull") {
        Some(UpdateOperator::Pull)
    } else if str_eq(s, "$pullAll") {
        Some(UpdateOperator::PullAll)
    } else if str_eq(s, "$push") {
        Some(UpdateOperator::Push)
    } else if str_eq(s, "$rename") {
        Some(UpdateOperator::Rename)
    } else if str_eq(s, "$set") {
        Some(UpdateOperator::SetValue)
    } else if str_eq(s, "$setOnInsert") {
        Some(UpdateOperator::SetOnInsert)
    } else if str_eq(s, "$unset") {
        Some(UpdateOperator::Unset)
    } else {
        None
    }
}

// -------------------------------------------------------------------------------------------------
// Problems

/// A problem found in a query.
#[derive(Clone, Copy, Debug, PartialEq, Eq)]
pub enum Problem {
    MacroEmpty,
    MainDocAsStruct,
    MainDocNotDefined,
    QueryBothUpdateAndRepl,
    QueryEmpty,
    AttrWithDots,
    FieldsMissing,
    FieldNotFound,
    FieldOnEnum,
    FieldOnPlain,
    FieldAmbiguous,
    OperatorUnknown,
    OperatorIncorrect,
    ExpCode,
    ExpCodeComp,
    ExpCodeEnum,
    ExpCodeUnion,
    ExpObject,
    ExpKey,
    ExpPlain,
    ExpArray,
    ExpF64,
    ExpString,
    ExpOid,
    ExpBool,
    ExpDate,
    ExpI32,
    ExpI64,
    ExpBson,
    ExpDateObj,
    ExpEmptyString,
}

impl Problem {
    /// The message reported for the problem.
    pub open spec fn spec_as_str(self) -> Seq<char> {
        match self {
            Problem::MacroEmpty => "The macro seems to be empty"@,
            Problem::MainDocAsStruct => "Main document for has to be a structure"@,
            Problem::MainDocNotDefined => "Main document for this collection is not defined"@,
            Problem::QueryBothUpdateAndRepl => "The query contains both update and replacement fields"@,
            Problem::QueryEmpty => "The query seems to be empty"@,
            Problem::AttrWithDots => "Attributes in replacement/data document cannot contain dots (.)"@,
            Problem::FieldsMissing => "Required fields are missing"@,
            Problem::FieldNotFound => "Field does not match in the schema"@,
            Problem::FieldOnEnum => "No more fields can be specified for an enum"@,
            Problem::FieldOnPlain => "No more fields can be specified for a plain field"@,
            Problem::FieldAmbiguous => "Fields that match many union variants are not supported yet"@,
            Problem::OperatorUnknown => "Unknown query operator"@,
            Problem::OperatorIncorrect => "This operator cannot be used with the declared type"@,
            Problem::ExpCode => "This value is supported only in `code` mode"@,
            Problem::ExpCodeComp => "Composed data are supported only in `code` mode"@,
            Problem::ExpCodeEnum => "Enums are supported only in `code` mode"@,
            Problem::ExpCodeUnion => "Unions are supported only in `code` mode"@,
            Problem::ExpObject => "Expected an object"@,
            Problem::ExpKey => "Expected a literal key"@,
            Problem::ExpPlain => "Expected a type without container"@,
            Problem::ExpArray => "Expected an array"@,
            Problem::ExpF64 => "Expected a floating point value"@,
            Problem::ExpString => "Expected a string"@,
            Problem::ExpOid => "Expected an Object ID"@,
            Problem::ExpBool => "Expected a boolean value"@,
            Problem::ExpDate => "Expected a date in 'YYYY-mm-ddTHH:MM:ss' format"@,
            Problem::ExpI32 => "Expected a 32-bit integer"@,
            Problem::ExpI64 => "Expected a 64-bit integer"@,
            Problem::ExpBson => "BSON objects are supported only in `code` mode"@,
            Problem::ExpDateObj => "Expected `true` or object `{\"$type\":\"timestamp\"|\"datetime\"}`"@,
            Problem::ExpEmptyString => "Expected an empty string"@,
        }
    }

    /// Returns the message reported for the problem.
    pub fn as_str(&self) -> (r: &'static str)
        ensures
            r@ == self.spec_as_str(),
    {
        match self {
            Problem::MacroEmpty => "The macro seems to be empty",
            Problem::MainDocAsStruct => "Main document for has to be a structure",
            Problem::MainDocNotDefined => "Main document for this collection is not defined",
            Problem::QueryBothUpdateAndRepl => "The query contains both update and replacement fields",
            Problem::QueryEmpty => "The query seems to be empty",
            Problem::AttrWithDots => "Attributes in replacement/data document cannot contain dots (.)",
            Problem::FieldsMissing => "Required fields are missing",
            Problem::FieldNotFound => "Field does not match in the schema",
            Problem::FieldOnEnum => "No more fields can be specified for an enum",
            Problem::FieldOnPlain => "No more fields can be specified for a plain field",
            Problem::FieldAmbiguous => "Fields that match many union variants are not supported yet",
            Problem::OperatorUnknown => "Unknown query operator",
            Problem::OperatorIncorrect => "This operator cannot be used with the declared type",
            Problem::ExpCode => "This value is supported only in `code` mode",
            Problem::ExpCodeComp => "Composed data are supported only in `code` mode",
            Problem::ExpCodeEnum => "Enums are supported only in `code` mode",
            Problem::ExpCodeUnion => "Unions are supported only in `code` mode",
            Problem::ExpObject => "Expected an object",
            Problem::ExpKey => "Expected a literal key",
            Problem::ExpPlain => "Expected a type without container",
            Problem::ExpArray => "Expected an array",
            Problem::ExpF64 => "Expected a floating point value",
            Problem::ExpString => "Expected a string",
            Problem::ExpOid => "Expected an Object ID",
            Problem::ExpBool => "Expected a boolean value",
            Problem::ExpDate => "Expected a date in 'YYYY-mm-ddTHH:MM:ss' format",
            Problem::ExpI32 => "Expected a 32-bit integer",
            Problem::ExpI64 => "Expected a 64-bit integer",
            Problem::ExpBson => "BSON objects are supported only in `code` mode",
            Problem::ExpDateObj => "Expected `true` or object `{\"$type\":\"timestamp\"|\"datetime\"}`",
            Problem::ExpEmptyString => "Expected an empty string",
        }
    }

    /// The name of the variant.
    pub open spec fn spec_name(self) -> Seq<char> {
        match self {
            Problem::MacroEmpty => "MacroEmpty"@,
            Problem::MainDocAsStruct => "MainDocAsStruct"@,
            Problem::MainDocNotDefined => "MainDocNotDefined"@,
            Problem::QueryBothUpdateAndRepl => "QueryBothUpdateAndRepl"@,
            Problem::QueryEmpty => "QueryEmpty"@,
            Problem::AttrWithDots => "AttrWithDots"@,
            Problem::FieldsMissing => "FieldsMissing"@,
            Problem::FieldNotFound => "FieldNotFound"@,
            Problem::FieldOnEnum => "FieldOnEnum"@,
            Problem::FieldOnPlain => "FieldOnPlain"@,
            Problem::FieldAmbiguous => "FieldAmbiguous"@,
            Problem::OperatorUnknown => "OperatorUnknown"@,
            Problem::OperatorIncorrect => "OperatorIncorrect"@,
            Problem::ExpCode => "ExpCode"@,
            Problem::ExpCodeComp => "ExpCodeComp"@,
            Problem::ExpCodeEnum => "ExpCodeEnum"@,
            Problem::ExpCodeUnion => "ExpCodeUnion"@,
            Problem::ExpObject => "ExpObject"@,
            Problem::ExpKey => "ExpKey"@,
            Problem::ExpPlain => "ExpPlain"@,
            Problem::ExpArray => "ExpArray"@,
            Problem::ExpF64 => "ExpF64"@,
            Problem::ExpString => "ExpString"@,
            Problem::ExpOid => "ExpOid"@,
            Problem::ExpBool => "ExpBool"@,
            Problem::ExpDate => "ExpDate"@,
            Problem::ExpI32 => "ExpI32"@,
            Problem::ExpI64 => "ExpI64"@,
            Problem::ExpBson => "ExpBson"@,
            Problem::ExpDateObj => "ExpDateObj"@,
            Problem::ExpEmptyString => "ExpEmptyString"@,
        }
    }

    /// Returns the name of the variant.
    pub fn name(&self) -> (r: &'static str)
        ensures
            r@ == self.spec_name(),
    {
        match self {
            Problem::MacroEmpty => "MacroEmpty",
            Problem::MainDocAsStruct => "MainDocAsStruct",
            Problem::MainDocNotDefined => "MainDocNotDefined",
            Problem::QueryBothUpdateAndRepl => "QueryBothUpdateAndRepl",
            Problem::QueryEmpty => "QueryEmpty",
            Problem::AttrWithDots => "AttrWithDots",
            Problem::FieldsMissing => "FieldsMissing",
            Problem::FieldNotFound => "FieldNotFound",
            Problem::FieldOnEnum => "FieldOnEnum",
            Problem::FieldOnPlain => "FieldOnPlain",
            Problem::FieldAmbiguous => "FieldAmbiguous",
            Problem::OperatorUnknown => "OperatorUnknown",
            Problem::OperatorIncorrect => "OperatorIncorrect",
            Problem::ExpCode => "ExpCode",
            Problem::ExpCodeComp => "ExpCodeComp",
            Problem::ExpCodeEnum => "ExpCodeEnum",
            Problem::ExpCodeUnion => "ExpCodeUnion",
            Problem::ExpObject => "ExpObject",
            Problem::ExpKey => "ExpKey",
            Problem::ExpPlain => "ExpPlain",
            Problem::ExpArray => "ExpArray",
            Problem::ExpF64 => "ExpF64",
            Problem::ExpString => "ExpString",
            Problem::ExpOid => "ExpOid",
            Problem::ExpBool => "ExpBool",
            Problem::ExpDate => "ExpDate",
            Problem::ExpI32 => "ExpI32",
            Problem::ExpI64 => "ExpI64",
            Problem::ExpBson => "ExpBson",
            Problem::ExpDateObj => "ExpDateObj",
            Problem::ExpEmptyString => "ExpEmptyString",
        }
    }
}

/// The list of problems found in a query.
#[derive(Debug)]
pub struct Verdict {
    pub problems: Vec<Problem>,
}

/// The code written for a list of problems: `vec![` and the paths of the problems joined by commas.
pub open spec fn verdict_text(problems: Seq<Problem>) -> Seq<char>
    decreases problems.len(),
{
    if problems.len() == 0 {
        "vec!["@
    } else if problems.len() == 1 {
        "vec!["@ + "huus::Problem::"@ + problems[0].spec_name()
    } else {
        verdict_text(problems.drop_last()) + ", "@ + "huus::Problem::"@
            + problems.last().spec_name()
    }
}

impl Verdict {
    /// Constructs an empty verdict.
    pub fn new() -> (r: Self)
        ensures
            r.problems@.len() == 0,
    {
        Self { problems: Vec::new() }
    }

    /// Formats the problems as code building a vector of them.
    pub fn format(&self) -> (r: String)
        ensures
            r@ == verdict_text(self.problems@) + "]"@,
    {
        let mut text = copy_string("vec![");
        let mut i: usize = 0;
        while i < self.problems.len()
            invariant
                i <= self.problems@.len(),
                text@ == verdict_text(self.problems@.subrange(0, i as int)),
            decreases self.problems@.len() - i,
        {
            let ghost prefix = self.problems@.subrange(0, i + 1);
            assert(prefix.drop_last() =~= self.problems@.subrange(0, i as int));
            if i > 0 {
                text = concat(text.as_str(), ", ");
            }
            text = concat(text.as_str(), "huus::Problem::");
            text = concat(text.as_str(), self.problems[i].name());
            proof {
                if i == 0 {
                    assert(verdict_text(self.problems@.subrange(0, 0)) == "vec!["@);
                }
                assert(text@ =~= verdict_text(prefix));
            }
            i = i + 1;
        }
        assert(self.problems@.subrange(0, self.problems@.len() as int) =~= self.problems@);
        concat(text.as_str(), "]")
    }
}

// -------------------------------------------------------------------------------------------------
// Members of the schema

/// The entity that a type name refers to.
pub open spec fn entity_named(schema: Schema, name: Seq<char>) -> Option<Entity> {
    match first_entity_named(schema.entities@, name) {
        Some(i) => Some(schema.entities@[i]),
        None => None,
    }
}

/// The entity that a variant refers to (none for built-in types).
pub open spec fn variant_entity(schema: Schema, variant: Variant) -> Option<Entity> {
    match variant {
        Variant::Field(_) => None,
        Variant::Struct(n) => entity_named(schema, n.name@),
        Variant::Enum(n) => entity_named(schema, n.name@),
        Variant::Union(n) => entity_named(schema, n.name@),
    }
}

/// Returns the entity that a variant refers to (none for built-in types).
pub fn find_variant_entity<'a>(schema: &'a Schema, variant: &Variant) -> (r: Option<&'a Entity>)
    ensures
        match variant_entity(*schema, *variant) {
            Some(e) => r matches Some(x) && *x == e,
            None => r is None,
        },
{
    match variant {
        Variant::Field(_) => None,
        Variant::Struct(n) => schema.find_entity(n.name.as_str()),
        Variant::Enum(n) => schema.find_entity(n.name.as_str()),
        Variant::Union(n) => schema.find_entity(n.name.as_str()),
    }
}

/// A member found in the schema: its type and its container (plain when an array element was
/// selected by an index).
pub struct MemberInfo<'a> {
    pub variant: &'a Variant,
    pub container: Container,
}

/// The member that the attribute parts from `idx` on denote, searching the members of the
/// structure from `k` on.
pub open spec fn spec_find_from(
    schema: Schema,
    st: Struct,
    attr: Seq<PartV>,
    idx: int,
    k: int,
) -> Result<(Variant, ContainerV), Problem>
    decreases attr.len() - idx, 0int, st.members@.len() - k,
{
    if !(0 <= idx < attr.len()) {
        Err(Problem::FieldNotFound)
    } else if !(attr[idx] is Key) {
        Err(Problem::ExpKey)
    } else if !(0 <= k < st.members@.len()) {
        Err(Problem::FieldNotFound)
    } else if st.members@[k].db_name@ == attr[idx]->Key_0 {
        spec_resolve(schema, st.members@[k], attr, idx)
    } else {
        spec_find_from(schema, st, attr, idx, k + 1)
    }
}

/// Whether an index part right after the member name selects an element of the array member.
pub open spec fn skips_index(m: Member, attr: Seq<PartV>, idx: int) -> bool {
    m.container is Array && idx + 1 < attr.len() && !(attr[idx + 1] is Key)
}

/// The member that the attribute parts from `idx` on denote, given that part `idx` names the
/// member `m`.
pub open spec fn spec_resolve(schema: Schema, m: Member, attr: Seq<PartV>, idx: int) -> Result<
    (Variant, ContainerV),
    Problem,
>
    decreases attr.len() - idx, 0int, 0int,
{
    let skip = skips_index(m, attr, idx);
    let next = if skip { idx + 2 } else { idx + 1 };
    let cont = if skip { ContainerV::Plain } else { m.container@ };
    if !(0 <= idx < attr.len()) {
        Err(Problem::FieldNotFound)
    } else if next >= attr.len() {
        Ok((m.variant, cont))
    } else if m.variant is Field {
        Err(Problem::FieldOnPlain)
    } else {
        match variant_entity(schema, m.variant) {
            Some(Entity::Struct(s)) => spec_find_from(schema, s, attr, next, 0),
            Some(Entity::Union(u)) => peek_result(spec_peek_upto(schema, u, attr, next, u.choices@.len() as int)),
            Some(Entity::Enum(_)) => Err(Problem::FieldOnEnum),
            None => Err(Problem::FieldNotFound),
        }
    }
}

/// The member found in a union: the only one found, if exactly one is.
pub open spec fn peek_result(found: Seq<(Variant, ContainerV)>) -> Result<(Variant, ContainerV), Problem> {
    if found.len() == 1 {
        Ok(found[0])
    } else if found.len() == 0 {
        Err(Problem::FieldNotFound)
    } else {
        Err(Problem::FieldAmbiguous)
    }
}

/// The members that the attribute parts from `idx` on denote in the structures of the first `j`
/// union choices.
pub open spec fn spec_peek_upto(
    schema: Schema,
    u: Union,
    attr: Seq<PartV>,
    idx: int,
    j: int,
) -> Seq<(Variant, ContainerV)>
    decreases attr.len() - idx, 1int, j,
{
    if !(0 < j <= u.choices@.len()) || !(0 <= idx < attr.len()) {
        Seq::empty()
    } else {
        let init = spec_peek_upto(schema, u, attr, idx, j - 1);
        match entity_named(schema, u.choices@[j - 1].variant.name@) {
            Some(Entity::Struct(s)) => match spec_find_from(schema, s, attr, idx, 0) {
                Ok(m) => init.push(m),
                Err(_) => init,
            },
            _ => init,
        }
    }
}

/// The view of a found member.
pub open spec fn info_view(info: MemberInfo) -> (Variant, ContainerV) {
    (*info.variant, info.container@)
}

/// The member that the attribute denotes in the structure.
pub open spec fn spec_find_member(schema: Schema, st: Struct, attr: Seq<PartV>) -> Result<
    (Variant, ContainerV),
    Problem,
> {
    spec_find_from(schema, st, attr, 0, 0)
}

/// Finds the member that the attribute parts from `idx` on denote in the structure.
pub fn find_member<'a>(schema: &'a Schema, st: &'a Struct, attr: &Attribute, idx: usize) -> (r:
    Result<MemberInfo<'a>, Problem>)
    ensures
        match spec_find_from(*schema, *st, attr@, idx as int, 0) {
            Ok(m) => r matches Ok(info) && *info.variant == m.0 && info.container@ == m.1,
            Err(p) => r == Err::<MemberInfo, Problem>(p),
        },
    decreases attr@.len() - idx, 0int, st.members@.len(),
{
    if idx >= attr.len() {
        return Err(Problem::FieldNotFound);
    }
    let key = match &attr.parts[idx] {
        Part::Key(key) => key,
        _ => {
            return Err(Problem::ExpKey);
        },
    };
    let mut k: usize = 0;
    while k < st.members.len()
        invariant
            0 <= idx < attr@.len(),
            attr@[idx as int] == PartV::Key(key@),
            k <= st.members@.len(),
            spec_find_from(*schema, *st, attr@, idx as int, 0) == spec_find_from(
                *schema,
                *st,
                attr@,
                idx as int,
                k as int,
            ),
        decreases st.members@.len() - k,
    {
            if str_eq(st.members[k].db_name.as_str(), key.as_str()) {
            return found_member(schema, st, attr, idx, k);
        }
        k = k + 1;
    }
    Err(Problem::FieldNotFound)
}

/// The member `k` of the structure matches the attribute part `idx`: resolves the rest of the
/// attribute from that member on.
#[verifier::rlimit(40)]
fn found_member<'a>(schema: &'a Schema, st: &'a Struct, attr: &Attribute, idx: usize, k: usize) -> (r:
    Result<MemberInfo<'a>, Problem>)
    requires
        idx < attr@.len(),
        k < st.members@.len(),
    ensures
        match spec_resolve(*schema, st.members@[k as int], attr@, idx as int) {
            Ok(m) => r matches Ok(info) && *info.variant == m.0 && info.container@ == m.1,
            Err(p) => r == Err::<MemberInfo, Problem>(p),
        },
    decreases attr@.len() - idx, 0int, 0int,
{
    let member = &st.members[k];
    let n = attr.parts.len();
    let skip = member.container.is_array() && idx + 1 < n && !attr.parts[idx + 1].is_key();
    let next = if skip { idx + 2 } else { idx + 1 };
    let container = if skip { Container::Plain } else { member.container.duplicate() };
    let ghost m = st.members@[k as int];
    assert(skip == skips_index(m, attr@, idx as int));
    assert(*member == m);
    if next >= n {
        return Ok(MemberInfo { variant: &member.variant, container });
    }
    match &member.variant {
        Variant::Field(_) => {
            return Err(Problem::FieldOnPlain);
        },
        _ => {},
    }
    match find_variant_entity(schema, &member.variant) {
        Some(Entity::Struct(s)) => {
            find_member(schema, s, attr, next)
        },
        Some(Entity::Union(u)) => peek_member(schema, u, attr, next),
        Some(Entity::Enum(_)) => Err(Problem::FieldOnEnum),
        None => Err(Problem::FieldNotFound),
    }
}

/// Finds the member that the attribute parts from `idx` on denote in exactly one of the
/// structures of the union.
#[verifier::rlimit(60)]
pub fn peek_member<'a>(schema: &'a Schema, u: &'a Union, attr: &Attribute, idx: usize) -> (r:
    Result<MemberInfo<'a>, Problem>)
    requires
        idx < attr@.len(),
    ensures
        match peek_result(spec_peek_upto(*schema, *u, attr@, idx as int, u.choices@.len() as int)) {
            Ok(m) => r matches Ok(info) && *info.variant == m.0 && info.container@ == m.1,
            Err(p) => r == Err::<MemberInfo, Problem>(p),
        },
    decreases attr@.len() - idx, 1int, u.choices@.len() + 1,
{
    let mut first: Option<MemberInfo<'a>> = None;
    let mut count: usize = 0;
    let mut j: usize = 0;
    while j < u.choices.len()
        invariant
            idx < attr@.len(),
            j <= u.choices@.len(),
            count <= j,
            count as int == spec_peek_upto(*schema, *u, attr@, idx as int, j as int).len(),
            count > 0 ==> (first matches Some(info) && info_view(info) == spec_peek_upto(
                *schema,
                *u,
                attr@,
                idx as int,
                j as int,
            )[0]),
        decreases u.choices@.len() - j,
    {
            match schema.find_entity(u.choices[j].variant.name.as_str()) {
            Some(Entity::Struct(s)) => {
                match find_member(schema, s, attr, idx) {
                    Ok(info) => {
                        if count == 0 {
                            first = Some(info);
                        }
                        count = count + 1;
                    },
                    Err(_) => {},
                }
            },
            _ => {},
        }
        j = j + 1;
    }
    if count == 1 {
        match first {
            Some(info) => Ok(info),
            None => Err(Problem::FieldNotFound),
        }
    } else if count == 0 {
        Err(Problem::FieldNotFound)
    } else {
        Err(Problem::FieldAmbiguous)
    }
}


// -------------------------------------------------------------------------------------------------
// Conversion of values

/// The value written by a template for a built-in type.
pub open spec fn spec_builtin_value(builtin: BuiltInType, t: TemplateV) -> Result<ValueV, Problem> {
    match builtin {
        BuiltInType::F64 => match t {
            TemplateV::Unquoted(s) => if is_float_text(s) {
                Ok(ValueV::F64(s))
            } else {
                Err(Problem::ExpF64)
            },
            _ => Err(Problem::ExpF64),
        },
        BuiltInType::String => match t {
            TemplateV::Quoted(s) => Ok(ValueV::String(s)),
            _ => Err(Problem::ExpString),
        },
        BuiltInType::ObjectId => match t {
            TemplateV::Quoted(s) => if is_object_id_text(s) {
                Ok(ValueV::ObjectId(s))
            } else {
                Err(Problem::ExpOid)
            },
            TemplateV::Unquoted(s) => if is_object_id_text(s) {
                Ok(ValueV::ObjectId(s))
            } else {
                Err(Problem::ExpOid)
            },
            _ => Err(Problem::ExpOid),
        },
        BuiltInType::Bool => match t {
            TemplateV::Unquoted(s) => if s == "true"@ {
                Ok(ValueV::Bool(true))
            } else if s == "false"@ {
                Ok(ValueV::Bool(false))
            } else {
                Err(Problem::ExpBool)
            },
            _ => Err(Problem::ExpBool),
        },
        BuiltInType::Date => match t {
            TemplateV::Quoted(s) => if is_date_text(s) {
                Ok(ValueV::Date(s))
            } else {
                Err(Problem::ExpDate)
            },
            _ => Err(Problem::ExpDate),
        },
        BuiltInType::I32 => match t {
            TemplateV::Unquoted(s) => match signed_text_value(s, 0x8000_0000, 0x7fff_ffff) {
                Some(v) => Ok(ValueV::I32(v as i32)),
                None => Err(Problem::ExpI32),
            },
            _ => Err(Problem::ExpI32),
        },
        BuiltInType::I64 => match t {
            TemplateV::Unquoted(s) => match signed_text_value(
                s,
                0x8000_0000_0000_0000,
                0x7fff_ffff_ffff_ffff,
            ) {
                Some(v) => Ok(ValueV::I64(v as i64)),
                None => Err(Problem::ExpI64),
            },
            _ => Err(Problem::ExpI64),
        },
        BuiltInType::Bson => Err(Problem::ExpBson),
    }
}

/// The value of a comparison in a filter on a built-in type.
pub open spec fn spec_filter_value(op: QueryOperator, builtin: BuiltInType, t: TemplateV) -> Result<
    ValueV,
    Problem,
> {
    match op {
        QueryOperator::In | QueryOperator::Nin => match t {
            TemplateV::Code(c) => Ok(ValueV::Code(c, VariantV::Field(builtin), ContainerV::Array)),
            _ => Err(Problem::ExpCode),
        },
        _ => match t {
            TemplateV::Code(c) => Ok(ValueV::Code(c, VariantV::Field(builtin), ContainerV::Plain)),
            _ => spec_builtin_value(builtin, t),
        },
    }
}

/// The fields (and the problems) of the first `n` comparisons of a filter object on a built-in
/// type.
pub open spec fn spec_filter_fields(
    builtin: BuiltInType,
    container: ContainerV,
    fields: Seq<(Seq<PartV>, TemplateV)>,
    n: int,
) -> (Seq<(Seq<PartV>, ValueV)>, Seq<Problem>)
    decreases n,
{
    if n <= 0 || n > fields.len() {
        (Seq::empty(), Seq::empty())
    } else {
        let prev = spec_filter_fields(builtin, container, fields, n - 1);
        let f = fields[n - 1];
        match query_operator_of(composed(f.0)) {
            None => (prev.0, prev.1.push(Problem::OperatorUnknown)),
            Some(op) => if op.spec_matches(builtin, container) {
                match spec_filter_value(op, builtin, f.1) {
                    Ok(v) => (prev.0.push((f.0, v)), prev.1),
                    Err(p) => (prev.0, prev.1.push(p)),
                }
            } else {
                (prev.0, prev.1.push(Problem::OperatorIncorrect))
            },
        }
    }
}

/// The value given to `$currentDate`: `true`, or an object with the single field `$type`
/// holding `"timestamp"` or `"datetime"`.
pub open spec fn spec_date_value(t: TemplateV) -> Result<ValueV, Problem> {
    match t {
        TemplateV::Unquoted(s) => if s == "true"@ {
            Ok(ValueV::Bool(true))
        } else {
            Err(Problem::ExpDateObj)
        },
        TemplateV::Object(fields) => if fields.len() == 1 && composed(fields[0].0) == "$type"@ && (
        fields[0].1 matches TemplateV::Quoted(s) && (s == "timestamp"@ || s == "datetime"@)) {
            Ok(ValueV::String(fields[0].1->Quoted_0))
        } else {
            Err(Problem::ExpDateObj)
        },
        _ => Err(Problem::ExpDateObj),
    }
}

/// The problem with an attribute used in the given conversion, if any: data and replacement
/// documents do not accept dotted attributes.
pub open spec fn attribute_problem(attr: Seq<PartV>, conversion: Conversion) -> Option<Problem> {
    match conversion {
        Conversion::Replacement | Conversion::Data => if attr.len() == 1 {
            None
        } else {
            Some(Problem::AttrWithDots)
        },
        _ => None,
    }
}

/// Whether the object sets the member with the given database name.
pub open spec fn field_visited(
    schema: Schema,
    st: Struct,
    fields: Seq<(Seq<PartV>, TemplateV)>,
    conversion: Conversion,
    name: Seq<char>,
) -> bool {
    exists|i: int|
        0 <= i < fields.len() && attribute_problem(#[trigger] fields[i].0, conversion) is None
            && spec_find_member(schema, st, fields[i].0) is Ok && composed(fields[i].0) == name
}

/// A required member: neither optional nor an array.
pub open spec fn is_required(m: Member) -> bool {
    !m.is_optional && !(m.container is Array)
}

/// Data documents must set every required member.
pub open spec fn fields_missing(
    schema: Schema,
    st: Struct,
    fields: Seq<(Seq<PartV>, TemplateV)>,
    conversion: Conversion,
) -> bool {
    conversion == Conversion::Data && exists|k: int|
        0 <= k < st.members@.len() && is_required(#[trigger] st.members@[k]) && !field_visited(
            schema,
            st,
            fields,
            conversion,
            st.members@[k].db_name@,
        )
}

/// The value of a member given by a template (and the problems found inside it).
pub open spec fn spec_convert_value(
    schema: Schema,
    m: (Variant, ContainerV),
    t: TemplateV,
    conversion: Conversion,
) -> (Result<ValueV, Problem>, Seq<Problem>)
    decreases t, 3int, 0int,
{
    match t {
        TemplateV::Code(c) => (
            Ok(
                ValueV::Code(
                    c,
                    m.0@,
                    if conversion.spec_escapes_container() {
                        ContainerV::Plain
                    } else {
                        m.1
                    },
                ),
            ),
            Seq::empty(),
        ),
        _ => match conversion {
            Conversion::Update(op) => spec_convert_update(schema, m, t, op),
            Conversion::Filter => spec_convert_filter(schema, m.0, m.1, t),
            _ => if m.1 is Plain {
                match m.0 {
                    Variant::Field(b) => (spec_builtin_value(b, t), Seq::empty()),
                    _ => spec_convert_defined(schema, variant_entity(schema, m.0), t, conversion),
                }
            } else {
                (Err(Problem::ExpCodeComp), Seq::empty())
            },
        },
    }
}

/// The value given to an update operator for a member.
pub open spec fn spec_convert_update(
    schema: Schema,
    m: (Variant, ContainerV),
    t: TemplateV,
    op: UpdateOperator,
) -> (Result<ValueV, Problem>, Seq<Problem>)
    decreases t, 2int, 0int,
{
    match op {
        UpdateOperator::Inc | UpdateOperator::Min | UpdateOperator::Max | UpdateOperator::Mul
        | UpdateOperator::SetValue | UpdateOperator::SetOnInsert => if m.1 is Plain {
            match m.0 {
                Variant::Field(b) => (spec_builtin_value(b, t), Seq::empty()),
                _ => spec_convert_defined(schema, variant_entity(schema, m.0), t, Conversion::Data),
            }
        } else {
            (Err(Problem::ExpPlain), Seq::empty())
        },
        UpdateOperator::CurrentDate => if m.1 is Plain {
            if m.0 matches Variant::Field(BuiltInType::Date) {
                (spec_date_value(t), Seq::empty())
            } else {
                (Err(Problem::OperatorIncorrect), Seq::empty())
            }
        } else {
            (Err(Problem::ExpPlain), Seq::empty())
        },
        UpdateOperator::AddToSet | UpdateOperator::Pop | UpdateOperator::Push => if m.1 is Array {
            match m.0 {
                Variant::Field(b) => (spec_builtin_value(b, t), Seq::empty()),
                _ => spec_convert_defined(schema, variant_entity(schema, m.0), t, Conversion::Data),
            }
        } else {
            (Err(Problem::OperatorIncorrect), Seq::empty())
        },
        UpdateOperator::Pull => if m.1 is Array {
            spec_convert_filter(schema, m.0, ContainerV::Plain, t)
        } else {
            (Err(Problem::ExpArray), Seq::empty())
        },
        UpdateOperator::PullAll => (Err(Problem::ExpCode), Seq::empty()),
        UpdateOperator::Unset => if t matches TemplateV::Quoted(s) && s.len() == 0 {
            (Ok(ValueV::String(Seq::empty())), Seq::empty())
        } else {
            (Err(Problem::ExpEmptyString), Seq::empty())
        },
        UpdateOperator::Rename => match t {
            TemplateV::Quoted(s) => (Ok(ValueV::String(s)), Seq::empty()),
            _ => (Err(Problem::ExpString), Seq::empty()),
        },
    }
}

/// The value given in a filter for a member.
pub open spec fn spec_convert_filter(
    schema: Schema,
    variant: Variant,
    container: ContainerV,
    t: TemplateV,
) -> (Result<ValueV, Problem>, Seq<Problem>)
    decreases t, 1int, 1int,
{
    match variant {
        Variant::Field(b) => match t {
            TemplateV::Object(fields) => {
                let r = spec_filter_fields(b, container, fields, fields.len() as int);
                (Ok(ValueV::Object(r.0)), r.1)
            },
            _ => if container is Plain {
                (spec_builtin_value(b, t), Seq::empty())
            } else {
                (Err(Problem::ExpCodeComp), Seq::empty())
            },
        },
        _ => spec_convert_defined(schema, variant_entity(schema, variant), t, Conversion::Filter),
    }
}

/// The value of a user-defined type: only structures can be written out, as objects.
pub open spec fn spec_convert_defined(
    schema: Schema,
    entity: Option<Entity>,
    t: TemplateV,
    conversion: Conversion,
) -> (Result<ValueV, Problem>, Seq<Problem>)
    decreases t, 1int, 0int,
{
    match entity {
        Some(Entity::Struct(st)) => match t {
            TemplateV::Object(fields) => {
                let r = spec_convert_object(schema, st, fields, conversion);
                (Ok(ValueV::Object(r.0)), r.1)
            },
            _ => (Err(Problem::ExpObject), Seq::empty()),
        },
        Some(Entity::Enum(_)) => (Err(Problem::ExpCodeEnum), Seq::empty()),
        Some(Entity::Union(_)) => (Err(Problem::ExpCodeUnion), Seq::empty()),
        None => (Err(Problem::FieldNotFound), Seq::empty()),
    }
}

/// The object (and the problems found) for a structure given by an object template.
pub open spec fn spec_convert_object(
    schema: Schema,
    st: Struct,
    fields: Seq<(Seq<PartV>, TemplateV)>,
    conversion: Conversion,
) -> (Seq<(Seq<PartV>, ValueV)>, Seq<Problem>)
    decreases fields, 2int, 0int,
{
    let r = spec_convert_fields(schema, st, fields, conversion, fields.len() as int);
    if fields_missing(schema, st, fields, conversion) {
        (r.0, r.1.push(Problem::FieldsMissing))
    } else {
        r
    }
}

/// The fields (and the problems found) of the first `n` fields of an object template.
pub open spec fn spec_convert_fields(
    schema: Schema,
    st: Struct,
    fields: Seq<(Seq<PartV>, TemplateV)>,
    conversion: Conversion,
    n: int,
) -> (Seq<(Seq<PartV>, ValueV)>, Seq<Problem>)
    decreases fields, 1int, n,
{
    if n <= 0 || n > fields.len() {
        (Seq::empty(), Seq::empty())
    } else {
        let prev = spec_convert_fields(schema, st, fields, conversion, n - 1);
        let f = fields[n - 1];
        match attribute_problem(f.0, conversion) {
            Some(p) => (prev.0, prev.1.push(p)),
            None => match spec_find_member(schema, st, f.0) {
                Err(p) => (prev.0, prev.1.push(p)),
                Ok(m) => {
                    proof {
                        assert(decreases_to!(fields => fields[n - 1]));
                    }
                    let v = spec_convert_value(schema, m, f.1, conversion);
                    match v.0 {
                        Ok(val) => (prev.0.push((f.0, val)), prev.1 + v.1),
                        Err(p) => (prev.0, prev.1 + v.1.push(p)),
                    }
                },
            },
        }
    }
}


// -------------------------------------------------------------------------------------------------
// Executable conversion of values

/// The view of a converted value, or its problem.
pub open spec fn result_view(r: Result<Value, Problem>) -> Result<ValueV, Problem> {
    match r {
        Ok(v) => Ok(v.view_rec()),
        Err(p) => Err(p),
    }
}

/// Converts a template into a value of a built-in type.
pub fn convert_builtin_value(builtin: &BuiltInType, t: &ValueTemplate) -> (r: Result<Value, Problem>)
    ensures
        result_view(r) == spec_builtin_value(*builtin, t.view_rec()),
{
    match builtin {
        BuiltInType::F64 => match t {
            ValueTemplate::Unquoted(s) => {
                let chars = chars_of(s.as_str());
                if is_float(chars.as_slice()) {
                    Ok(Value::F64(copy_string(s.as_str())))
                } else {
                    Err(Problem::ExpF64)
                }
            },
            _ => Err(Problem::ExpF64),
        },
        BuiltInType::String => match t {
            ValueTemplate::Quoted(s) => Ok(Value::String(copy_string(s.as_str()))),
            _ => Err(Problem::ExpString),
        },
        BuiltInType::ObjectId => match t {
            ValueTemplate::Quoted(s) | ValueTemplate::Unquoted(s) => {
                match ObjectId::with_string(s.as_str()) {
                    Some(_) => Ok(Value::ObjectId(copy_string(s.as_str()))),
                    None => Err(Problem::ExpOid),
                }
            },
            _ => Err(Problem::ExpOid),
        },
        BuiltInType::Bool => match t {
            ValueTemplate::Unquoted(s) => {
                if str_eq(s.as_str(), "true") {
                    Ok(Value::Bool(true))
                } else if str_eq(s.as_str(), "false") {
                    Ok(Value::Bool(false))
                } else {
                    Err(Problem::ExpBool)
                }
            },
            _ => Err(Problem::ExpBool),
        },
        BuiltInType::Date => match t {
            ValueTemplate::Quoted(s) => {
                if parses_as_date(s.as_str()) {
                    Ok(Value::Date(copy_string(s.as_str())))
                } else {
                    Err(Problem::ExpDate)
                }
            },
            _ => Err(Problem::ExpDate),
        },
        BuiltInType::I32 => match t {
            ValueTemplate::Unquoted(s) => {
                let chars = chars_of(s.as_str());
                proof {
                    lemma_signed_text_value_range(s@, 0x8000_0000, 0x7fff_ffff);
                }
                match parse_signed(chars.as_slice(), 0x8000_0000, 0x7fff_ffff) {
                    Some(v) => Ok(Value::I32(v as i32)),
                    None => Err(Problem::ExpI32),
                }
            },
            _ => Err(Problem::ExpI32),
        },
        BuiltInType::I64 => match t {
            ValueTemplate::Unquoted(s) => {
                let chars = chars_of(s.as_str());
                proof {
                    lemma_signed_text_value_range(s@, 0x8000_0000_0000_0000, 0x7fff_ffff_ffff_ffff);
                }
                match parse_signed(
                    chars.as_slice(),
                    0x8000_0000_0000_0000,
                    0x7fff_ffff_ffff_ffff,
                ) {
                    Some(v) => Ok(Value::I64(v as i64)),
                    None => Err(Problem::ExpI64),
                }
            },
            _ => Err(Problem::ExpI64),
        },
        BuiltInType::Bson => Err(Problem::ExpBson),
    }
}

/// Converts the value of a comparison in a filter on a built-in type.
pub fn convert_filter_value(op: QueryOperator, builtin: &BuiltInType, t: &ValueTemplate) -> (r: Result<
    Value,
    Problem,
>)
    ensures
        result_view(r) == spec_filter_value(op, *builtin, t.view_rec()),
{
    match op {
        QueryOperator::In | QueryOperator::Nin => match t {
            ValueTemplate::Code(code) => Ok(
                Value::new_builtin_code(*builtin, Container::Array, copy_string(code.as_str())),
            ),
            _ => Err(Problem::ExpCode),
        },
        _ => match t {
            ValueTemplate::Code(code) => Ok(
                Value::new_builtin_code(*builtin, Container::Plain, copy_string(code.as_str())),
            ),
            _ => convert_builtin_value(builtin, t),
        },
    }
}

/// Converts a filter object on a member of a built-in type: its fields are comparisons.
pub fn convert_filter_object(
    builtin: &BuiltInType,
    container: &Container,
    template: &ObjectTemplate,
    problems: &mut Vec<Problem>,
) -> (r: Object)
    ensures
        ({
            let s = spec_filter_fields(
                *builtin,
                container@,
                template.view_fields(),
                template.view_fields().len() as int,
            );
            r@ == s.0 && final(problems)@ == old(problems)@ + s.1
        }),
{
    let ghost fields = template.view_fields();
    let ghost start = problems@;
    let mut object = Object::new();
    let mut i: usize = 0;
    while i < template.fields.len()
        invariant
            i <= template.fields@.len(),
            fields == template.view_fields(),
            object@ == spec_filter_fields(*builtin, container@, fields, i as int).0,
            problems@ == start + spec_filter_fields(*builtin, container@, fields, i as int).1,
        decreases template.fields@.len() - i,
    {
        let field = &template.fields[i];
        let ghost prev = spec_filter_fields(*builtin, container@, fields, i as int);
        assert(fields[i as int] == (field.attr@, field.value.view_rec()));
        match convert_query_operator(&field.attr) {
            None => {
                problems.push(Problem::OperatorUnknown);
            },
            Some(op) => {
                if op.matches(builtin, container) {
                    match convert_filter_value(op, builtin, &field.value) {
                        Ok(value) => {
                            object.push(Field::new(field.attr.duplicate(), value));
                        },
                        Err(p) => {
                            problems.push(p);
                        },
                    }
                } else {
                    problems.push(Problem::OperatorIncorrect);
                }
            },
        }
        assert(problems@ =~= start + spec_filter_fields(*builtin, container@, fields, i + 1).1);
        i = i + 1;
    }
    object
}

/// Converts the value given to `$currentDate`.
pub fn convert_date_value(t: &ValueTemplate) -> (r: Result<Value, Problem>)
    ensures
        result_view(r) == spec_date_value(t.view_rec()),
{
    match t {
        ValueTemplate::Unquoted(s) => {
            if str_eq(s.as_str(), "true") {
                return Ok(Value::Bool(true));
            }
        },
        ValueTemplate::Object(object) => {
            proof {
                lemma_object_template_view(*object);
            }
            if object.fields.len() == 1 {
                let field = &object.fields[0];
                let composed_attr = field.attr.to_composed();
                if str_eq(composed_attr.as_str(), "$type") {
                    match &field.value {
                        ValueTemplate::Quoted(s) => {
                            if str_eq(s.as_str(), "timestamp") || str_eq(s.as_str(), "datetime") {
                                return Ok(Value::String(copy_string(s.as_str())));
                            }
                        },
                        _ => {},
                    }
                }
            }
        },
        _ => {},
    }
    Err(Problem::ExpDateObj)
}


/// Converts the value of a member given by a template; problems found inside nested objects
/// are added to `problems`, the problem with the value itself is returned.
pub fn convert_value(
    schema: &Schema,
    member: &MemberInfo,
    t: &ValueTemplate,
    conversion: Conversion,
    problems: &mut Vec<Problem>,
) -> (r: Result<Value, Problem>)
    ensures
        ({
            let s = spec_convert_value(*schema, info_view(*member), t.view_rec(), conversion);
            result_view(r) == s.0 && final(problems)@ == old(problems)@ + s.1
        }),
    decreases t.view_rec(), 3int, 0int,
{
    if let ValueTemplate::Code(code) = t {
        let container = if conversion.escapes_container() {
            Container::Plain
        } else {
            member.container.duplicate()
        };
        let cast = CodeType { variant: member.variant.duplicate(), container };
        assert(problems@ =~= old(problems)@ + Seq::<Problem>::empty());
        return Ok(Value::Code { code: copy_string(code.as_str()), cast });
    }
    match conversion {
        Conversion::Update(op) => convert_update(schema, member, t, op, problems),
        Conversion::Filter => convert_filter(schema, member.variant, &member.container, t, problems),
        _ => {
            if member.container.is_plain() {
                match member.variant {
                    Variant::Field(b) => {
                        assert(problems@ =~= old(problems)@ + Seq::<Problem>::empty());
                        convert_builtin_value(b, t)
                    },
                    _ => convert_defined(schema, member.variant, t, conversion, problems),
                }
            } else {
                assert(problems@ =~= old(problems)@ + Seq::<Problem>::empty());
                Err(Problem::ExpCodeComp)
            }
        },
    }
}

/// Converts the value given to an update operator for a member.
pub fn convert_update(
    schema: &Schema,
    member: &MemberInfo,
    t: &ValueTemplate,
    op: UpdateOperator,
    problems: &mut Vec<Problem>,
) -> (r: Result<Value, Problem>)
    ensures
        ({
            let s = spec_convert_update(*schema, info_view(*member), t.view_rec(), op);
            result_view(r) == s.0 && final(problems)@ == old(problems)@ + s.1
        }),
    decreases t.view_rec(), 2int, 0int,
{
    proof {
        assert(old(problems)@ =~= old(problems)@ + Seq::<Problem>::empty());
    }
    match op {
        UpdateOperator::Inc | UpdateOperator::Min | UpdateOperator::Max | UpdateOperator::Mul
        | UpdateOperator::SetValue | UpdateOperator::SetOnInsert => {
            if member.container.is_plain() {
                match member.variant {
                    Variant::Field(b) => convert_builtin_value(b, t),
                    _ => convert_defined(schema, member.variant, t, Conversion::Data, problems),
                }
            } else {
                Err(Problem::ExpPlain)
            }
        },
        UpdateOperator::CurrentDate => {
            if member.container.is_plain() {
                match member.variant {
                    Variant::Field(BuiltInType::Date) => convert_date_value(t),
                    _ => Err(Problem::OperatorIncorrect),
                }
            } else {
                Err(Problem::ExpPlain)
            }
        },
        UpdateOperator::AddToSet | UpdateOperator::Pop | UpdateOperator::Push => {
            if member.container.is_array() {
                match member.variant {
                    Variant::Field(b) => convert_builtin_value(b, t),
                    _ => convert_defined(schema, member.variant, t, Conversion::Data, problems),
                }
            } else {
                Err(Problem::OperatorIncorrect)
            }
        },
        UpdateOperator::Pull => {
            if member.container.is_array() {
                convert_filter(schema, member.variant, &Container::Plain, t, problems)
            } else {
                Err(Problem::ExpArray)
            }
        },
        UpdateOperator::PullAll => Err(Problem::ExpCode),
        UpdateOperator::Unset => {
            if t.is_empty_string() {
                Ok(Value::String(String::new()))
            } else {
                Err(Problem::ExpEmptyString)
            }
        },
        UpdateOperator::Rename => match t {
            ValueTemplate::Quoted(s) => Ok(Value::String(copy_string(s.as_str()))),
            _ => Err(Problem::ExpString),
        },
    }
}

/// Converts the value given in a filter for a member.
pub fn convert_filter(
    schema: &Schema,
    variant: &Variant,
    container: &Container,
    t: &ValueTemplate,
    problems: &mut Vec<Problem>,
) -> (r: Result<Value, Problem>)
    ensures
        ({
            let s = spec_convert_filter(*schema, *variant, container@, t.view_rec());
            result_view(r) == s.0 && final(problems)@ == old(problems)@ + s.1
        }),
    decreases t.view_rec(), 1int, 1int,
{
    match variant {
        Variant::Field(b) => match t {
            ValueTemplate::Object(object) => {
                proof {
                    lemma_object_template_view(*object);
                }
                let obj = convert_filter_object(b, container, object, problems);
                proof {
                    lemma_object_value_view(obj);
                }
                Ok(Value::Object(obj))
            },
            _ => {
                assert(problems@ =~= old(problems)@ + Seq::<Problem>::empty());
                if container.is_plain() {
                    convert_builtin_value(b, t)
                } else {
                    Err(Problem::ExpCodeComp)
                }
            },
        },
        _ => convert_defined(schema, variant, t, Conversion::Filter, problems),
    }
}

/// Converts the value of a user-defined type: only structures can be written out, as objects.
pub fn convert_defined(
    schema: &Schema,
    variant: &Variant,
    t: &ValueTemplate,
    conversion: Conversion,
    problems: &mut Vec<Problem>,
) -> (r: Result<Value, Problem>)
    ensures
        ({
            let s = spec_convert_defined(
                *schema,
                variant_entity(*schema, *variant),
                t.view_rec(),
                conversion,
            );
            result_view(r) == s.0 && final(problems)@ == old(problems)@ + s.1
        }),
    decreases t.view_rec(), 1int, 0int,
{
    proof {
        assert(old(problems)@ =~= old(problems)@ + Seq::<Problem>::empty());
    }
    match find_variant_entity(schema, variant) {
        Some(Entity::Struct(st)) => match t {
            ValueTemplate::Object(object) => {
                proof {
                    lemma_object_template_view(*object);
                }
                let obj = convert_object(schema, st, object, conversion, problems);
                proof {
                    lemma_object_value_view(obj);
                }
                Ok(Value::Object(obj))
            },
            _ => Err(Problem::ExpObject),
        },
        Some(Entity::Enum(_)) => Err(Problem::ExpCodeEnum),
        Some(Entity::Union(_)) => Err(Problem::ExpCodeUnion),
        None => Err(Problem::FieldNotFound),
    }
}

/// Returns the problem with an attribute used in the given conversion, if any.
pub fn check_attribute(attr: &Attribute, conversion: Conversion) -> (r: Option<Problem>)
    ensures
        r == attribute_problem(attr@, conversion),
{
    match conversion {
        Conversion::Replacement | Conversion::Data => {
            if attr.len() == 1 {
                None
            } else {
                Some(Problem::AttrWithDots)
            }
        },
        _ => None,
    }
}

/// Converts an object template into an object of the given structure.
pub fn convert_object(
    schema: &Schema,
    st: &Struct,
    template: &ObjectTemplate,
    conversion: Conversion,
    problems: &mut Vec<Problem>,
) -> (r: Object)
    ensures
        ({
            let s = spec_convert_object(*schema, *st, template.view_fields(), conversion);
            r@ == s.0 && final(problems)@ == old(problems)@ + s.1
        }),
    decreases template.view_fields(), 2int, 0int,
{
    let ghost fields = template.view_fields();
    let ghost start = problems@;
    let mut object = Object::new();
    let mut visited: Vec<bool> = Vec::new();
    let mut i: usize = 0;
    while i < template.fields.len()
        invariant
            i <= template.fields@.len(),
            fields == template.view_fields(),
            visited@.len() == i,
            forall|j: int|
                0 <= j < i ==> #[trigger] visited@[j] == (attribute_problem(fields[j].0, conversion)
                    is None && spec_find_member(*schema, *st, fields[j].0) is Ok),
            object@ == spec_convert_fields(*schema, *st, fields, conversion, i as int).0,
            problems@ == start + spec_convert_fields(*schema, *st, fields, conversion, i as int).1,
        decreases template.fields@.len() - i,
    {
        let field = &template.fields[i];
        let ghost prev = spec_convert_fields(*schema, *st, fields, conversion, i as int);
        let ghost before = problems@;
        assert(fields[i as int] == (field.attr@, field.value.view_rec()));
        match check_attribute(&field.attr, conversion) {
            Some(p) => {
                problems.push(p);
                visited.push(false);
            },
            None => match find_member(schema, st, &field.attr, 0) {
                Err(p) => {
                    problems.push(p);
                    visited.push(false);
                },
                Ok(member) => {
                    visited.push(true);
                    proof {
                        assert(decreases_to!(fields => fields[i as int]));
                        assert(decreases_to!(fields[i as int] => fields[i as int].1));
                        assert(decreases_to!(template.view_fields() => field.value.view_rec()));
                    }
                    match convert_value(schema, &member, &field.value, conversion, problems) {
                        Ok(value) => {
                            object.push(Field::new(field.attr.duplicate(), value));
                        },
                        Err(p) => {
                            problems.push(p);
                        },
                    }
                },
            },
        }
        assert(problems@ =~= start + spec_convert_fields(*schema, *st, fields, conversion, i + 1).1);
        i = i + 1;
    }
    if required_missing(schema, st, template, conversion, &visited) {
        problems.push(Problem::FieldsMissing);
    }
    object
}

/// Checks whether a data document misses a required member; `visited` tells which fields were
/// matched with a member.
fn required_missing(
    schema: &Schema,
    st: &Struct,
    template: &ObjectTemplate,
    conversion: Conversion,
    visited: &Vec<bool>,
) -> (r: bool)
    requires
        visited@.len() == template.fields@.len(),
        forall|j: int|
            0 <= j < visited@.len() ==> #[trigger] visited@[j] == (attribute_problem(
                template.view_fields()[j].0,
                conversion,
            ) is None && spec_find_member(*schema, *st, template.view_fields()[j].0) is Ok),
    ensures
        r == fields_missing(*schema, *st, template.view_fields(), conversion),
{
    let ghost fields = template.view_fields();
    match conversion {
        Conversion::Data => {},
        _ => {
            return false;
        },
    }
    let mut k: usize = 0;
    while k < st.members.len()
        invariant
            k <= st.members@.len(),
            conversion == Conversion::Data,
            fields == template.view_fields(),
            visited@.len() == template.fields@.len(),
            forall|j: int|
                0 <= j < visited@.len() ==> #[trigger] visited@[j] == (attribute_problem(
                    fields[j].0,
                    conversion,
                ) is None && spec_find_member(*schema, *st, fields[j].0) is Ok),
            forall|q: int|
                0 <= q < k ==> !(is_required(#[trigger] st.members@[q]) && !field_visited(
                    *schema,
                    *st,
                    fields,
                    conversion,
                    st.members@[q].db_name@,
                )),
        decreases st.members@.len() - k,
    {
        let member = &st.members[k];
        if !member.is_optional && !member.container.is_array() {
            let mut found = false;
            let mut j: usize = 0;
            while j < template.fields.len()
                invariant
                    j <= template.fields@.len(),
                    fields == template.view_fields(),
                    visited@.len() == template.fields@.len(),
                    forall|q: int|
                        0 <= q < visited@.len() ==> #[trigger] visited@[q] == (attribute_problem(
                            fields[q].0,
                            conversion,
                        ) is None && spec_find_member(*schema, *st, fields[q].0) is Ok),
                    found == exists|q: int|
                        0 <= q < j && attribute_problem(#[trigger] fields[q].0, conversion) is None
                            && spec_find_member(*schema, *st, fields[q].0) is Ok && composed(
                            fields[q].0,
                        ) == member.db_name@,
                decreases template.fields@.len() - j,
            {
                assert(fields[j as int].0 == template.fields@[j as int].attr@);
                if visited[j] {
                    let text = template.fields[j].attr.to_composed();
                    if str_eq(text.as_str(), member.db_name.as_str()) {
                        found = true;
                    }
                }
                assert(visited@[j as int] == (attribute_problem(fields[j as int].0, conversion)
                    is None && spec_find_member(*schema, *st, fields[j as int].0) is Ok));
                j = j + 1;
            }
            if !found {
                assert(is_required(st.members@[k as int]));
                return true;
            }
        }
        k = k + 1;
    }
    false
}


// -------------------------------------------------------------------------------------------------
// Verification of whole queries

/// Whether a field of an update query names an update operator (a single key starting with a
/// dollar) rather than a member.
pub open spec fn is_updating(attr: Seq<PartV>) -> bool {
    attr.len() == 1 && part_is_operator(attr[0])
}

/// The kind of an update query: made of operators only, of members only, or a problem when it
/// mixes both or is empty.
pub open spec fn spec_update_type(fields: Seq<(Seq<PartV>, TemplateV)>) -> Result<UpdateType, Problem> {
    let has_updates = exists|i: int| 0 <= i < fields.len() && is_updating(#[trigger] fields[i].0);
    let has_replacements = exists|i: int|
        0 <= i < fields.len() && !is_updating(#[trigger] fields[i].0);
    if has_updates && has_replacements {
        Err(Problem::QueryBothUpdateAndRepl)
    } else if has_updates {
        Ok(UpdateType::Update)
    } else if has_replacements {
        Ok(UpdateType::Replacement)
    } else {
        Err(Problem::QueryEmpty)
    }
}

/// The fields (and the problems found) of the first `n` operators of an update query.
pub open spec fn spec_update_fields(
    schema: Schema,
    st: Struct,
    fields: Seq<(Seq<PartV>, TemplateV)>,
    n: int,
) -> (Seq<(Seq<PartV>, ValueV)>, Seq<Problem>)
    decreases n,
{
    if n <= 0 || n > fields.len() {
        (Seq::empty(), Seq::empty())
    } else {
        let prev = spec_update_fields(schema, st, fields, n - 1);
        let f = fields[n - 1];
        match update_operator_of(composed(f.0)) {
            None => (prev.0, prev.1.push(Problem::OperatorUnknown)),
            Some(op) => match f.1 {
                TemplateV::Object(obj) => {
                    let r = spec_convert_object(schema, st, obj, Conversion::Update(op));
                    (prev.0.push((f.0, ValueV::Object(r.0))), prev.1 + r.1)
                },
                _ => (prev.0, prev.1.push(Problem::ExpObject)),
            },
        }
    }
}

/// The result of a verification: the name of the main document and the object, or the problems
/// found (an object without fields is a problem too).
pub open spec fn spec_generator(
    name: Seq<char>,
    r: (Seq<(Seq<PartV>, ValueV)>, Seq<Problem>),
) -> Result<(Seq<char>, Seq<(Seq<PartV>, ValueV)>), Seq<Problem>> {
    let problems = if r.0.len() == 0 {
        r.1.push(Problem::MacroEmpty)
    } else {
        r.1
    };
    if problems.len() == 0 {
        Ok((name, r.0))
    } else {
        Err(problems)
    }
}

/// The main document of a collection.
pub open spec fn collection_struct(schema: Schema, collection: Seq<char>) -> Option<Struct> {
    match first_collection_struct(schema.entities@, collection) {
        Some(i) => Some(schema.entities@[i]->Struct_0),
        None => None,
    }
}

/// The result of verifying a data query.
pub open spec fn spec_verify_data(
    schema: Schema,
    collection: Seq<char>,
    fields: Seq<(Seq<PartV>, TemplateV)>,
) -> Result<(Seq<char>, Seq<(Seq<PartV>, ValueV)>), Seq<Problem>> {
    match collection_struct(schema, collection) {
        None => Err(seq![Problem::MainDocNotDefined]),
        Some(st) => spec_generator(
            st.struct_name.name@,
            spec_convert_object(schema, st, fields, Conversion::Data),
        ),
    }
}

/// The result of verifying a filter query.
pub open spec fn spec_verify_filter(
    schema: Schema,
    collection: Seq<char>,
    fields: Seq<(Seq<PartV>, TemplateV)>,
) -> Result<(Seq<char>, Seq<(Seq<PartV>, ValueV)>), Seq<Problem>> {
    match collection_struct(schema, collection) {
        None => Err(seq![Problem::MainDocNotDefined]),
        Some(st) => spec_generator(
            st.struct_name.name@,
            spec_convert_object(schema, st, fields, Conversion::Filter),
        ),
    }
}

/// The result of verifying an update query.
pub open spec fn spec_verify_update(
    schema: Schema,
    collection: Seq<char>,
    fields: Seq<(Seq<PartV>, TemplateV)>,
) -> Result<(Seq<char>, Seq<(Seq<PartV>, ValueV)>), Seq<Problem>> {
    match collection_struct(schema, collection) {
        None => Err(seq![Problem::MainDocNotDefined]),
        Some(st) => match spec_update_type(fields) {
            Err(p) => Err(seq![p]),
            Ok(UpdateType::Update) => spec_generator(
                st.struct_name.name@,
                spec_update_fields(schema, st, fields, fields.len() as int),
            ),
            Ok(UpdateType::Replacement) => spec_generator(
                st.struct_name.name@,
                spec_convert_object(schema, st, fields, Conversion::Replacement),
            ),
        },
    }
}

/// A verified query, ready for code generation.
#[derive(Debug)]
pub struct Generator {
    /// Name of the main document of the collection.
    pub name: DefinedType,
    /// The query.
    pub object: Object,
}

impl Generator {
    /// Constructs a new `Generator`.
    pub fn new(name: DefinedType, object: Object) -> (r: Self)
        ensures
            r.name == name,
            r.object == object,
    {
        Self { name, object }
    }
}

/// The view of a verification result.
pub open spec fn verification_view(r: Result<Generator, Verdict>) -> Result<
    (Seq<char>, Seq<(Seq<PartV>, ValueV)>),
    Seq<Problem>,
> {
    match r {
        Ok(g) => Ok((g.name.name@, g.object@)),
        Err(v) => Err(v.problems@),
    }
}

/// Builds the result of a verification from the converted object and the problems found.
pub fn make_generator(name: &DefinedType, object: Object, problems: Vec<Problem>) -> (r: Result<
    Generator,
    Verdict,
>)
    ensures
        verification_view(r) == spec_generator(name.name@, (object@, problems@)),
{
    let mut problems = problems;
    if object.fields.len() == 0 {
        problems.push(Problem::MacroEmpty);
    }
    if problems.len() == 0 {
        Ok(Generator::new(name.duplicate(), object))
    } else {
        Err(Verdict { problems })
    }
}

/// Checks whether the update query is made of operators or of members.
pub fn verify_update_type(template: &ObjectTemplate) -> (r: Result<UpdateType, Problem>)
    ensures
        r == spec_update_type(template.view_fields()),
{
    let ghost fields = template.view_fields();
    let mut has_updates = false;
    let mut has_replacements = false;
    let mut i: usize = 0;
    while i < template.fields.len()
        invariant
            i <= template.fields@.len(),
            fields == template.view_fields(),
            has_updates == exists|j: int| 0 <= j < i && is_updating(#[trigger] fields[j].0),
            has_replacements == exists|j: int| 0 <= j < i && !is_updating(#[trigger] fields[j].0),
        decreases template.fields@.len() - i,
    {
        assert(fields[i as int].0 == template.fields@[i as int].attr@);
        if template.fields[i].attr.is_operator() {
            has_updates = true;
        } else {
            has_replacements = true;
        }
        i = i + 1;
    }
    if has_updates && has_replacements {
        Err(Problem::QueryBothUpdateAndRepl)
    } else if has_updates {
        Ok(UpdateType::Update)
    } else if has_replacements {
        Ok(UpdateType::Replacement)
    } else {
        Err(Problem::QueryEmpty)
    }
}

/// Converts the operators of an update query.
pub fn convert_update_object(
    schema: &Schema,
    st: &Struct,
    template: &ObjectTemplate,
    problems: &mut Vec<Problem>,
) -> (r: Object)
    ensures
        ({
            let s = spec_update_fields(
                *schema,
                *st,
                template.view_fields(),
                template.view_fields().len() as int,
            );
            r@ == s.0 && final(problems)@ == old(problems)@ + s.1
        }),
{
    let ghost fields = template.view_fields();
    let ghost start = problems@;
    let mut object = Object::new();
    let mut i: usize = 0;
    while i < template.fields.len()
        invariant
            i <= template.fields@.len(),
            fields == template.view_fields(),
            object@ == spec_update_fields(*schema, *st, fields, i as int).0,
            problems@ == start + spec_update_fields(*schema, *st, fields, i as int).1,
        decreases template.fields@.len() - i,
    {
        let field = &template.fields[i];
        assert(fields[i as int] == (field.attr@, field.value.view_rec()));
        match convert_update_operator(&field.attr) {
            None => {
                problems.push(Problem::OperatorUnknown);
            },
            Some(op) => match &field.value {
                ValueTemplate::Object(obj) => {
                    proof {
                        lemma_object_template_view(*obj);
                    }
                    let converted = convert_object(schema, st, obj, Conversion::Update(op), problems);
                    proof {
                        lemma_object_value_view(converted);
                    }
                    object.push(Field::new(field.attr.duplicate(), Value::Object(converted)));
                },
                _ => {
                    problems.push(Problem::ExpObject);
                },
            },
        }
        assert(problems@ =~= start + spec_update_fields(*schema, *st, fields, i + 1).1);
        i = i + 1;
    }
    object
}

/// Checks a parsed query against the schema.
pub struct Validator<'a> {
    /// Name of the collection the query refers to.
    pub collection: String,
    /// The query.
    pub object: ObjectTemplate,
    /// The schema.
    pub schema: &'a Schema,
}

impl<'a> Validator<'a> {
    /// Constructs a new `Validator`.
    pub fn new(collection: String, object: ObjectTemplate, schema: &'a Schema) -> (r: Self)
        ensures
            r.collection == collection,
            r.object == object,
            r.schema == schema,
    {
        Self { collection, object, schema }
    }

    /// Verifies a data query: a whole document of the collection.
    pub fn verify_data(self) -> (r: Result<Generator, Verdict>)
        ensures
            verification_view(r) == spec_verify_data(
                *self.schema,
                self.collection@,
                self.object.view_fields(),
            ),
    {
        match self.schema.find_entity_for_collection(self.collection.as_str()) {
            None => not_defined(),
            Some(st) => verify_object(self.schema, st, &self.object, Conversion::Data),
        }
    }

    /// Verifies a filter query.
    pub fn verify_filter(self) -> (r: Result<Generator, Verdict>)
        ensures
            verification_view(r) == spec_verify_filter(
                *self.schema,
                self.collection@,
                self.object.view_fields(),
            ),
    {
        match self.schema.find_entity_for_collection(self.collection.as_str()) {
            None => not_defined(),
            Some(st) => verify_object(self.schema, st, &self.object, Conversion::Filter),
        }
    }

    /// Verifies an update query: either update operators or a replacement document.
    pub fn verify_update(self) -> (r: Result<Generator, Verdict>)
        ensures
            verification_view(r) == spec_verify_update(
                *self.schema,
                self.collection@,
                self.object.view_fields(),
            ),
    {
        match self.schema.find_entity_for_collection(self.collection.as_str()) {
            None => not_defined(),
            Some(st) => match verify_update_type(&self.object) {
                Err(p) => {
                    let problems = vec![p];
                    assert(problems@ =~= seq![p]);
                    Err(Verdict { problems })
                },
                Ok(UpdateType::Update) => {
                    let mut problems: Vec<Problem> = Vec::new();
                    let object = convert_update_object(self.schema, st, &self.object, &mut problems);
                    assert(problems@ =~= Seq::<Problem>::empty() + problems@);
                    make_generator(&st.struct_name, object, problems)
                },
                Ok(UpdateType::Replacement) => verify_object(
                    self.schema,
                    st,
                    &self.object,
                    Conversion::Replacement,
                ),
            },
        }
    }
}

/// The verdict for a collection without a main document.
fn not_defined() -> (r: Result<Generator, Verdict>)
    ensures
        verification_view(r) == Err::<(Seq<char>, Seq<(Seq<PartV>, ValueV)>), Seq<Problem>>(
            seq![Problem::MainDocNotDefined],
        ),
{
    let problems = vec![Problem::MainDocNotDefined];
    assert(problems@ =~= seq![Problem::MainDocNotDefined]);
    Err(Verdict { problems })
}

/// Converts the query as an object of the main document and makes the verdict.
fn verify_object(schema: &Schema, st: &Struct, template: &ObjectTemplate, conversion: Conversion) -> (r:
    Result<Generator, Verdict>)
    ensures
        verification_view(r) == spec_generator(
            st.struct_name.name@,
            spec_convert_object(*schema, *st, template.view_fields(), conversion),
        ),
{
    let mut problems: Vec<Problem> = Vec::new();
    let object = convert_object(schema, st, template, conversion, &mut problems);
    assert(problems@ =~= Seq::<Problem>::empty() + problems@);
    make_generator(&st.struct_name, object, problems)
}


// -------------------------------------------------------------------------------------------------
// Laws of verification

/// A query is accepted exactly when it has fields and no problem was found in them; a refused
/// query is answered with at least one problem.
pub proof fn law_generator(name: Seq<char>, r: (Seq<(Seq<PartV>, ValueV)>, Seq<Problem>))
    ensures
        spec_generator(name, r) is Ok <==> (r.0.len() > 0 && r.1.len() == 0),
        spec_generator(name, r) matches Err(problems) ==> problems.len() > 0,
        spec_generator(name, r) matches Ok(g) ==> g == (name, r.0),
{
}

/// A query on a collection without a main document is refused with that problem alone.
pub proof fn law_collection_not_defined(
    schema: Schema,
    collection: Seq<char>,
    fields: Seq<(Seq<PartV>, TemplateV)>,
)
    requires
        collection_struct(schema, collection) is None,
    ensures
        spec_verify_data(schema, collection, fields) == Err::<
            (Seq<char>, Seq<(Seq<PartV>, ValueV)>),
            Seq<Problem>,
        >(seq![Problem::MainDocNotDefined]),
        spec_verify_filter(schema, collection, fields) == Err::<
            (Seq<char>, Seq<(Seq<PartV>, ValueV)>),
            Seq<Problem>,
        >(seq![Problem::MainDocNotDefined]),
        spec_verify_update(schema, collection, fields) == Err::<
            (Seq<char>, Seq<(Seq<PartV>, ValueV)>),
            Seq<Problem>,
        >(seq![Problem::MainDocNotDefined]),
{
}

// -------------------------------------------------------------------------------------------------
// Laws

/// `$nin` applies wherever `$in` does, and on an array member these two are the only
/// comparison operators that apply.
pub proof fn law_in_and_nin_apply_alike(builtin: BuiltInType, container: ContainerV)
    ensures
        QueryOperator::In.spec_matches(builtin, container) == QueryOperator::Nin.spec_matches(
            builtin,
            container,
        ),
        QueryOperator::In.spec_matches(builtin, ContainerV::Array),
        forall|op: QueryOperator|
            #[trigger] op.spec_matches(builtin, ContainerV::Array) ==> op == QueryOperator::In || op
                == QueryOperator::Nin,
{
}

/// A data document that sets every member that is neither optional nor an array misses no
/// required field, whatever array members it leaves out: no `FieldsMissing` is reported.
pub proof fn law_arrays_are_never_required(
    schema: Schema,
    st: Struct,
    fields: Seq<(Seq<PartV>, TemplateV)>,
    conversion: Conversion,
)
    requires
        forall|k: int|
            0 <= k < st.members@.len() && !st.members@[k].is_optional && !(
            #[trigger] st.members@[k].container is Array) ==> field_visited(
                schema,
                st,
                fields,
                conversion,
                st.members@[k].db_name@,
            ),
    ensures
        !fields_missing(schema, st, fields, conversion),
        spec_convert_object(schema, st, fields, conversion) == spec_convert_fields(
            schema,
            st,
            fields,
            conversion,
            fields.len() as int,
        ),
{
    if fields_missing(schema, st, fields, conversion) {
        let k = choose|k: int|
            0 <= k < st.members@.len() && is_required(#[trigger] st.members@[k]) && !field_visited(
                schema,
                st,
                fields,
                conversion,
                st.members@[k].db_name@,
            );
        assert(!(st.members@[k].container is Array));
    }
}

/// Every update operator name that update documents are written with reads back as the operator
/// of that name, and distinct names read as distinct operators.
pub proof fn law_update_operator_names_read_back()
    ensures
        update_operator_of(crate::updates::operator_name(crate::updates::UpdateOperator::Inc.index()))
            == Some(UpdateOperator::Inc),
        update_operator_of(crate::updates::operator_name(crate::updates::UpdateOperator::Min.index()))
            == Some(UpdateOperator::Min),
        update_operator_of(crate::updates::operator_name(crate::updates::UpdateOperator::Max.index()))
            == Some(UpdateOperator::Max),
        update_operator_of(crate::updates::operator_name(crate::updates::UpdateOperator::Mul.index()))
            == Some(UpdateOperator::Mul),
        update_operator_of(
            crate::updates::operator_name(crate::updates::UpdateOperator::Rename.index()),
        ) == Some(UpdateOperator::Rename),
        update_operator_of(
            crate::updates::operator_name(crate::updates::UpdateOperator::SetValue.index()),
        ) == Some(UpdateOperator::SetValue),
        update_operator_of(
            crate::updates::operator_name(crate::updates::UpdateOperator::SetOnInsert.index()),
        ) == Some(UpdateOperator::SetOnInsert),
        update_operator_of(
            crate::updates::operator_name(crate::updates::UpdateOperator::Unset.index()),
        ) == Some(UpdateOperator::Unset),
        update_operator_of(
            crate::updates::operator_name(crate::updates::UpdateOperator::AddToSet.index()),
        ) == Some(UpdateOperator::AddToSet),
        update_operator_of(crate::updates::operator_name(crate::updates::UpdateOperator::Pop.index()))
            == Some(UpdateOperator::Pop),
        update_operator_of(
            crate::updates::operator_name(crate::updates::UpdateOperator::Pull.index()),
        ) == Some(UpdateOperator::Pull),
        update_operator_of(
            crate::updates::operator_name(crate::updates::UpdateOperator::Push.index()),
        ) == Some(UpdateOperator::Push),
        update_operator_of(
            crate::updates::operator_name(crate::updates::UpdateOperator::PullAll.index()),
        ) == Some(UpdateOperator::PullAll),
        update_operator_of(
            crate::updates::operator_name(crate::updates::UpdateOperator::CurrentDate.index()),
        ) == Some(UpdateOperator::CurrentDate),
        forall|j: int, k: int|
            0 <= j < 14 && 0 <= k < 14 && j != k ==> update_operator_of(
                #[trigger] crate::updates::operator_name(j),
            ) != update_operator_of(#[trigger] crate::updates::operator_name(k)),
{
    lemma_operator_names_distinct();
}

proof fn lemma_operator_names_distinct()
    ensures
        update_operator_of("$inc"@) == Some(UpdateOperator::Inc),
        update_operator_of("$min"@) == Some(UpdateOperator::Min),
        update_operator_of("$max"@) == Some(UpdateOperator::Max),
        update_operator_of("$mul"@) == Some(UpdateOperator::Mul),
        update_operator_of("$rename"@) == Some(UpdateOperator::Rename),
        update_operator_of("$set"@) == Some(UpdateOperator::SetValue),
        update_operator_of("$setOnInsert"@) == Some(UpdateOperator::SetOnInsert),
        update_operator_of("$unset"@) == Some(UpdateOperator::Unset),
        update_operator_of("$addToSet"@) == Some(UpdateOperator::AddToSet),
        update_operator_of("$pop"@) == Some(UpdateOperator::Pop),
        update_operator_of("$pull"@) == Some(UpdateOperator::Pull),
        update_operator_of("$push"@) == Some(UpdateOperator::Push),
        update_operator_of("$pullAll"@) == Some(UpdateOperator::PullAll),
        update_operator_of("$currentDate"@) == Some(UpdateOperator::CurrentDate),
{
    reveal_strlit("$inc");
    reveal_strlit("$min");
    reveal_strlit("$max");
    reveal_strlit("$mul");
    reveal_strlit("$rename");
    reveal_strlit("$set");
    reveal_strlit("$setOnInsert");
    reveal_strlit("$unset");
    reveal_strlit("$addToSet");
    reveal_strlit("$pop");
    reveal_strlit("$pull");
    reveal_strlit("$push");
    reveal_strlit("$pullAll");
    reveal_strlit("$currentDate");
    assert("$inc"@.len() == 4 && "$inc"@[1] == 'i' && "$inc"@[2] == 'n' && "$inc"@[3] == 'c');
    assert("$min"@.len() == 4 && "$min"@[1] == 'm' && "$min"@[2] == 'i' && "$min"@[3] == 'n');
    assert("$max"@.len() == 4 && "$max"@[1] == 'm' && "$max"@[2] == 'a' && "$max"@[3] == 'x');
    assert("$mul"@.len() == 4 && "$mul"@[1] == 'm' && "$mul"@[2] == 'u' && "$mul"@[3] == 'l');
    assert("$rename"@.len() == 7 && "$rename"@[1] == 'r' && "$rename"@[2] == 'e' && "$rename"@[3] == 'n');
    assert("$set"@.len() == 4 && "$set"@[1] == 's' && "$set"@[2] == 'e' && "$set"@[3] == 't');
    assert("$setOnInsert"@.len() == 12 && "$setOnInsert"@[1] == 's' && "$setOnInsert"@[2] == 'e' && "$setOnInsert"@[3] == 't');
    assert("$unset"@.len() == 6 && "$unset"@[1] == 'u' && "$unset"@[2] == 'n' && "$unset"@[3] == 's');
    assert("$addToSet"@.len() == 9 && "$addToSet"@[1] == 'a' && "$addToSet"@[2] == 'd' && "$addToSet"@[3] == 'd');
    assert("$pop"@.len() == 4 && "$pop"@[1] == 'p' && "$pop"@[2] == 'o' && "$pop"@[3] == 'p');
    assert("$pull"@.len() == 5 && "$pull"@[1] == 'p' && "$pull"@[2] == 'u' && "$pull"@[3] == 'l');
    assert("$push"@.len() == 5 && "$push"@[1] == 'p' && "$push"@[2] == 'u' && "$push"@[3] == 's');
    assert("$pullAll"@.len() == 8 && "$pullAll"@[1] == 'p' && "$pullAll"@[2] == 'u' && "$pullAll"@[3] == 'l');
    assert("$currentDate"@.len() == 12 && "$currentDate"@[1] == 'c' && "$currentDate"@[2] == 'u' && "$currentDate"@[3] == 'r');
}

/// `$inc`, `$min`, `$max` and `$mul` read as numeric update operators: on a plain member of a
/// built-in type they take the value as that type reads it, and report no problem of their own.
pub proof fn law_numeric_updates_of_plain_fields(
    schema: Schema,
    builtin: BuiltInType,
    t: TemplateV,
    s: Seq<char>,
)
    requires
        s == "$inc"@ || s == "$min"@ || s == "$max"@ || s == "$mul"@,
    ensures
        update_operator_of(s) matches Some(op) && spec_convert_update(
            schema,
            (Variant::Field(builtin), ContainerV::Plain),
            t,
            op,
        ) == (spec_builtin_value(builtin, t), Seq::<Problem>::empty()),
{
    lemma_operator_names_distinct();
}

}
