//! Validation of the parsed schema definitions and building of the schema.

use vstd::prelude::*;

use crate::definition::input::{
    ContainerTemplate, ContainerTemplateV, EntityTemplate, EntityTemplateV, MemberTemplate,
    MemberTemplateV, StructTemplate,
};
use crate::definition::output::{
    BuiltInType, Container, ContainerV, DefinedType, Entity, EntityV, Member, MemberV, ParseError,
    Schema, Struct, StructV, Variant, VariantV, bad_db_char_message, builtin_of_name,
    first_bad_db_char, has_forbidden_prefix, variant_allows_indexing,
};
use crate::text::{concat, copy_string, str_eq};

verus! {

// -------------------------------------------------------------------------------------------------
// Validation

/// Name of an entity template.
pub open spec fn template_name(e: EntityTemplateV) -> Seq<char> {
    match e {
        EntityTemplateV::Struct(s) => s.struct_name,
        EntityTemplateV::Enum(n, _) => n,
        EntityTemplateV::Union(n, _) => n,
    }
}

/// Index of the first entity template with the given name.
pub open spec fn first_template_named(es: Seq<EntityTemplateV>, name: Seq<char>) -> Option<int> {
    if exists|i: int| 0 <= i < es.len() && #[trigger] template_name(es[i]) == name {
        Some(choose|i: int|
            0 <= i < es.len() && #[trigger] template_name(es[i]) == name && (forall|j: int|
                0 <= j < i ==> #[trigger] template_name(es[j]) != name))
    } else {
        None
    }
}

/// The problem with a member template, if any: map keys must be `String` or an enum.
pub open spec fn member_problem(es: Seq<EntityTemplateV>, m: MemberTemplateV) -> Option<Seq<char>> {
    match m.container {
        ContainerTemplateV::BTreeMap(k) | ContainerTemplateV::HashMap(k) => match builtin_of_name(k) {
            Some(b) => if b == BuiltInType::String {
                None
            } else {
                Some("Only 'String' can be used as a key"@)
            },
            None => match first_template_named(es, k) {
                Some(i) => if es[i] is Enum {
                    None
                } else {
                    Some("Type '"@ + k + "' is not an huus enum"@)
                },
                None => Some("Type '"@ + k + "' is neither not (pre)defined"@),
            },
        },
        _ => None,
    }
}

/// Whether every member of every structure is valid.
pub open spec fn members_valid(es: Seq<EntityTemplateV>) -> bool {
    forall|i: int, k: int|
        0 <= i < es.len() && es[i] is Struct && 0 <= k < es[i]->Struct_0.members.len()
            ==> #[trigger] member_problem(es, es[i]->Struct_0.members[k]) is None
}



/// The collection a template assigns its structure to, if any.
pub open spec fn template_collection(e: EntityTemplateV) -> Option<Seq<char>> {
    match e {
        EntityTemplateV::Struct(s) => s.collection_name,
        _ => None,
    }
}

/// No two entities share a name.
pub open spec fn names_unique(es: Seq<EntityTemplateV>) -> bool {
    forall|i: int, j: int|
        0 <= i < j < es.len() ==> template_name(#[trigger] es[i]) != template_name(#[trigger] es[j])
}

/// No two structures are the main document of the same collection.
pub open spec fn collections_unique(es: Seq<EntityTemplateV>) -> bool {
    forall|i: int, j: int|
        0 <= i < j < es.len() && template_collection(#[trigger] es[i]) is Some
            ==> template_collection(es[i]) != template_collection(#[trigger] es[j])
}

/// A schema definition is valid when names and collections are not repeated and every member
/// is valid.
pub open spec fn spec_validate(es: Seq<EntityTemplateV>) -> bool {
    names_unique(es) && collections_unique(es) && members_valid(es)
}

/// Checks a member template: map keys must be `String` or an enum. A refusal says why.
pub fn validate_member(entities: &Vec<EntityTemplate>, member: &MemberTemplate) -> (r: Result<(), String>)
    ensures
        match member_problem(entities@.map_values(|e: EntityTemplate| e@), member@) {
            None => r is Ok,
            Some(m) => r matches Err(x) && x@ == m,
        },
{
    match &member.container {
        ContainerTemplate::BTreeMap(key) | ContainerTemplate::HashMap(key) => {
            match BuiltInType::from_name(key.as_str()) {
                Ok(BuiltInType::String) => Ok(()),
                Ok(_) => Err(copy_string("Only 'String' can be used as a key")),
                Err(_) => match find_template(entities, key.as_str()) {
                    Some(i) => {
                        assert(entities@.map_values(|e: EntityTemplate| e@)[i as int]
                            == entities@[i as int]@);
                        match &entities[i] {
                            EntityTemplate::Enum(_) => Ok(()),
                            _ => {
                                let start = concat("Type '", key.as_str());
                                Err(concat(start.as_str(), "' is not an huus enum"))
                            },
                        }
                    },
                    None => {
                        let start = concat("Type '", key.as_str());
                        Err(concat(start.as_str(), "' is neither not (pre)defined"))
                    },
                },
            }
        },
        _ => Ok(()),
    }
}

/// A problem found in schema definitions: the definition it concerns, the member of that
/// definition when it concerns one, and what is wrong.
#[derive(Debug, PartialEq, Eq)]
pub struct DefinitionProblem {
    /// How many definitions come before the one concerned.
    pub entity: usize,
    /// How many members of the definition come before the one concerned, if one is.
    pub member: Option<usize>,
    /// What is wrong.
    pub message: String,
}

/// The view of a problem found in schema definitions.
pub struct ProblemV {
    pub entity: int,
    pub member: Option<int>,
    pub message: Seq<char>,
}

impl View for DefinitionProblem {
    type V = ProblemV;

    open spec fn view(&self) -> ProblemV {
        ProblemV {
            entity: self.entity as int,
            member: match self.member {
                Some(k) => Some(k as int),
                None => None,
            },
            message: self.message@,
        }
    }
}

/// The views of problems.
pub open spec fn problems_view(ps: Seq<DefinitionProblem>) -> Seq<ProblemV> {
    ps.map_values(|p: DefinitionProblem| p@)
}

/// Whether a definition before the `i`-th one has its name.
pub open spec fn name_repeated(es: Seq<EntityTemplateV>, i: int) -> bool {
    exists|a: int| 0 <= a < i && #[trigger] template_name(es[a]) == template_name(es[i])
}

/// Whether the `i`-th definition assigns a collection that a structure before it assigned.
pub open spec fn collection_repeated(es: Seq<EntityTemplateV>, i: int) -> bool {
    template_collection(es[i]) is Some && exists|a: int|
        0 <= a < i && #[trigger] template_collection(es[a]) == template_collection(es[i])
}

/// The message for a definition whose name was taken before.
pub open spec fn redefined_message(e: EntityTemplateV) -> Seq<char> {
    match e {
        EntityTemplateV::Struct(_) => "Structure redefined"@,
        EntityTemplateV::Enum(_, _) => "Enum redefined"@,
        EntityTemplateV::Union(_, _) => "Union redefined"@,
    }
}

/// The message for a structure whose collection was assigned before.
pub open spec fn collection_taken_message() -> Seq<char> {
    "Main document schema already assigned for this collection"@
}

/// The problems of the first `k` members of the `i`-th definition, in order.
pub open spec fn member_problems(es: Seq<EntityTemplateV>, i: int, ms: Seq<MemberTemplateV>, k: int) -> Seq<
    ProblemV,
>
    decreases k,
{
    if k <= 0 || k > ms.len() {
        Seq::empty()
    } else {
        let prev = member_problems(es, i, ms, k - 1);
        match member_problem(es, ms[k - 1]) {
            Some(m) => prev.push(ProblemV { entity: i, member: Some(k - 1), message: m }),
            None => prev,
        }
    }
}

/// The problems of the `i`-th definition: its name taken before, then its collection assigned
/// before, then those of its members.
pub open spec fn entity_problems(es: Seq<EntityTemplateV>, i: int) -> Seq<ProblemV> {
    let named = if name_repeated(es, i) {
        seq![ProblemV { entity: i, member: None, message: redefined_message(es[i]) }]
    } else {
        Seq::empty()
    };
    let collected = if collection_repeated(es, i) {
        seq![ProblemV { entity: i, member: None, message: collection_taken_message() }]
    } else {
        Seq::empty()
    };
    let members = match es[i] {
        EntityTemplateV::Struct(st) => member_problems(es, i, st.members, st.members.len() as int),
        _ => Seq::empty(),
    };
    named + collected + members
}

/// The problems of the first `n` definitions, in order.
pub open spec fn definition_problems(es: Seq<EntityTemplateV>, n: int) -> Seq<ProblemV>
    decreases n,
{
    if n <= 0 {
        Seq::empty()
    } else {
        definition_problems(es, n - 1) + entity_problems(es, n - 1)
    }
}

proof fn lemma_member_problems_none(es: Seq<EntityTemplateV>, i: int, ms: Seq<MemberTemplateV>, k: int)
    requires
        0 <= k <= ms.len(),
    ensures
        member_problems(es, i, ms, k).len() == 0 <==> forall|q: int|
            0 <= q < k ==> #[trigger] member_problem(es, ms[q]) is None,
    decreases k,
{
    if k > 0 {
        lemma_member_problems_none(es, i, ms, k - 1);
        lemma_member_problems_grow(es, i, ms, k - 1);
    }
}

proof fn lemma_member_problems_grow(es: Seq<EntityTemplateV>, i: int, ms: Seq<MemberTemplateV>, k: int)
    requires
        0 <= k <= ms.len(),
    ensures
        member_problems(es, i, ms, k).len() <= k,
    decreases k,
{
    if k > 0 {
        lemma_member_problems_grow(es, i, ms, k - 1);
    }
}

proof fn lemma_definition_problems_none(es: Seq<EntityTemplateV>, n: int)
    requires
        0 <= n <= es.len(),
    ensures
        definition_problems(es, n).len() == 0 <==> forall|i: int|
            0 <= i < n ==> #[trigger] entity_problems(es, i).len() == 0,
    decreases n,
{
    if n > 0 {
        lemma_definition_problems_none(es, n - 1);
    }
}

/// Schema definitions are valid exactly when no problem is found in them.
pub proof fn law_valid_iff_no_problem(es: Seq<EntityTemplateV>)
    ensures
        spec_validate(es) <==> definition_problems(es, es.len() as int).len() == 0,
{
    lemma_definition_problems_none(es, es.len() as int);
    assert forall|i: int| 0 <= i < es.len() implies (#[trigger] entity_problems(es, i).len() == 0
        <==> (!name_repeated(es, i) && !collection_repeated(es, i) && (es[i] is Struct ==> forall|
        q: int|
        0 <= q < es[i]->Struct_0.members.len() ==> #[trigger] member_problem(
            es,
            es[i]->Struct_0.members[q],
        ) is None))) by {
        if es[i] is Struct {
            let ms = es[i]->Struct_0.members;
            lemma_member_problems_none(es, i, ms, ms.len() as int);
        }
    }
    if spec_validate(es) {
        assert forall|i: int| 0 <= i < es.len() implies #[trigger] entity_problems(es, i).len() == 0 by {
            assert(!name_repeated(es, i)) by {
                if name_repeated(es, i) {
                    let a = choose|a: int| 0 <= a < i && #[trigger] template_name(es[a]) == template_name(es[i]);
                    assert(template_name(es[a]) != template_name(es[i]));
                }
            }
            assert(!collection_repeated(es, i)) by {
                if collection_repeated(es, i) {
                    let a = choose|a: int|
                        0 <= a < i && #[trigger] template_collection(es[a]) == template_collection(es[i]);
                    assert(template_collection(es[a]) != template_collection(es[i]));
                }
            }
        }
    }
    if definition_problems(es, es.len() as int).len() == 0 {
        assert(names_unique(es)) by {
            assert forall|a: int, b: int| 0 <= a < b < es.len() implies template_name(#[trigger] es[a])
                != template_name(#[trigger] es[b]) by {
                assert(entity_problems(es, b).len() == 0);
                if template_name(es[a]) == template_name(es[b]) {
                    assert(name_repeated(es, b));
                }
            }
        }
        assert(collections_unique(es)) by {
            assert forall|a: int, b: int|
                0 <= a < b < es.len() && template_collection(#[trigger] es[a]) is Some implies template_collection(
                es[a],
            ) != template_collection(#[trigger] es[b]) by {
                assert(entity_problems(es, b).len() == 0);
                if template_collection(es[a]) == template_collection(es[b]) {
                    assert(collection_repeated(es, b));
                }
            }
        }
        assert(members_valid(es)) by {
            assert forall|i: int, k: int|
                0 <= i < es.len() && es[i] is Struct && 0 <= k < es[i]->Struct_0.members.len() implies #[trigger] member_problem(
                es,
                es[i]->Struct_0.members[k],
            ) is None by {
                assert(entity_problems(es, i).len() == 0);
            }
        }
    }
}

/// Returns every problem of the schema definitions, in the order of the definitions.
pub fn problems_of(entities: &Vec<EntityTemplate>) -> (r: Vec<DefinitionProblem>)
    ensures
        problems_view(r@) == definition_problems(
            entities@.map_values(|e: EntityTemplate| e@),
            entities@.len() as int,
        ),
{
    let ghost es = entities@.map_values(|e: EntityTemplate| e@);
    let mut problems: Vec<DefinitionProblem> = Vec::new();
    let mut i: usize = 0;
    assert(problems_view(problems@) =~= definition_problems(es, 0));
    while i < entities.len()
        invariant
            i <= entities@.len(),
            es == entities@.map_values(|e: EntityTemplate| e@),
            problems_view(problems@) == definition_problems(es, i as int),
        decreases entities@.len() - i,
    {
        let entity = &entities[i];
        assert(es[i as int] == entity@);
        let mut named = false;
        let mut collected = false;
        let mut j: usize = 0;
        while j < i
            invariant
                j <= i < entities@.len(),
                es == entities@.map_values(|e: EntityTemplate| e@),
                es[i as int] == entity@,
                named ==> exists|a: int| 0 <= a < j && #[trigger] template_name(es[a]) == template_name(es[i as int]),
                !named ==> forall|a: int| 0 <= a < j ==> #[trigger] template_name(es[a]) != template_name(es[i as int]),
                collected ==> template_collection(es[i as int]) is Some && exists|a: int|
                    0 <= a < j && #[trigger] template_collection(es[a]) == template_collection(es[i as int]),
                !collected ==> template_collection(es[i as int]) is None || forall|a: int|
                    0 <= a < j ==> #[trigger] template_collection(es[a]) != template_collection(es[i as int]),
            decreases i - j,
        {
            let other = &entities[j];
            assert(es[j as int] == other@);
            assert(template_name(es[j as int]) == other.spec_name());
            assert(template_name(es[i as int]) == entity.spec_name());
            if str_eq(other.name(), entity.name()) {
                named = true;
            }
            match (other, entity) {
                (EntityTemplate::Struct(a), EntityTemplate::Struct(b)) => {
                    match (&a.collection_name, &b.collection_name) {
                        (Some(x), Some(y)) => {
                            if str_eq(x.as_str(), y.as_str()) {
                                collected = true;
                                assert(template_collection(es[j as int]) == template_collection(
                                    es[i as int],
                                ));
                            }
                        },
                        _ => {},
                    }
                },
                _ => {},
            }
            j = j + 1;
        }
        let ghost before = problems_view(problems@);
        if named {
            let message = match entity {
                EntityTemplate::Struct(_) => copy_string("Structure redefined"),
                EntityTemplate::Enum(_) => copy_string("Enum redefined"),
                EntityTemplate::Union(_) => copy_string("Union redefined"),
            };
            problems.push(DefinitionProblem { entity: i, member: None, message });
        }
        if collected {
            problems.push(
                DefinitionProblem {
                    entity: i,
                    member: None,
                    message: copy_string("Main document schema already assigned for this collection"),
                },
            );
        }
        let ghost head = problems_view(problems@);
        assert(head =~= before + (if name_repeated(es, i as int) {
            seq![ProblemV { entity: i as int, member: None, message: redefined_message(es[i as int]) }]
        } else {
            Seq::empty()
        }) + (if collection_repeated(es, i as int) {
            seq![ProblemV { entity: i as int, member: None, message: collection_taken_message() }]
        } else {
            Seq::empty()
        }));
        if let EntityTemplate::Struct(st) = entity {
            let mut k: usize = 0;
            assert(problems_view(problems@) =~= head + member_problems(es, i as int, st@.members, 0));
            while k < st.members.len()
                invariant
                    k <= st.members@.len() == st@.members.len(),
                    i < entities@.len(),
                    es == entities@.map_values(|e: EntityTemplate| e@),
                    es[i as int] == EntityTemplateV::Struct(st@),
                    problems_view(problems@) == head + member_problems(es, i as int, st@.members, k as int),
                decreases st.members@.len() - k,
            {
                assert(st@.members[k as int] == st.members@[k as int]@);
                let ghost mid = problems_view(problems@);
                match validate_member(entities, &st.members[k]) {
                    Ok(()) => {},
                    Err(message) => {
                        problems.push(DefinitionProblem { entity: i, member: Some(k), message });
                        assert(problems_view(problems@) =~= mid.push(
                            ProblemV { entity: i as int, member: Some(k as int), message: message@ },
                        ));
                    },
                }
                k = k + 1;
            }
        } else {
            assert(problems_view(problems@) =~= head + Seq::<ProblemV>::empty());
        }
        assert(definition_problems(es, i + 1) == definition_problems(es, i as int) + entity_problems(es, i as int));
        assert(problems_view(problems@) =~= definition_problems(es, i + 1));
        i = i + 1;
    }
    problems
}

/// Checks that the schema definition is valid.
pub fn validate(entities: &Vec<EntityTemplate>) -> (r: bool)
    ensures
        r == spec_validate(entities@.map_values(|e: EntityTemplate| e@)),
{
    let ghost es = entities@.map_values(|e: EntityTemplate| e@);
    let mut i: usize = 0;
    while i < entities.len()
        invariant
            i <= entities@.len(),
            es == entities@.map_values(|e: EntityTemplate| e@),
            forall|a: int, b: int|
                0 <= a < b < i ==> template_name(#[trigger] es[a]) != template_name(#[trigger] es[b]),
            forall|a: int, b: int|
                0 <= a < b < i && template_collection(#[trigger] es[a]) is Some
                    ==> template_collection(es[a]) != template_collection(#[trigger] es[b]),
            forall|a: int, k: int|
                0 <= a < i && es[a] is Struct && 0 <= k < es[a]->Struct_0.members.len()
                    ==> #[trigger] member_problem(es, es[a]->Struct_0.members[k]) is None,
        decreases entities@.len() - i,
    {
        let entity = &entities[i];
        assert(es[i as int] == entity@);
        let mut j: usize = 0;
        while j < i
            invariant
                j <= i < entities@.len(),
                es == entities@.map_values(|e: EntityTemplate| e@),
                es[i as int] == entity@,
                forall|a: int| 0 <= a < j ==> template_name(#[trigger] es[a]) != template_name(es[i as int]),
                forall|a: int|
                    0 <= a < j && template_collection(#[trigger] es[a]) is Some
                        ==> template_collection(es[a]) != template_collection(es[i as int]),
            decreases i - j,
        {
            let other = &entities[j];
            assert(es[j as int] == other@);
            if str_eq(other.name(), entity.name()) {
                return false;
            }
            match (other, entity) {
                (EntityTemplate::Struct(a), EntityTemplate::Struct(b)) => {
                    match (&a.collection_name, &b.collection_name) {
                        (Some(x), Some(y)) => {
                            if str_eq(x.as_str(), y.as_str()) {
                                return false;
                            }
                        },
                        _ => {},
                    }
                },
                _ => {},
            }
            j = j + 1;
        }
        if let EntityTemplate::Struct(st) = entity {
            let mut k: usize = 0;
            while k < st.members.len()
                invariant
                    k <= st.members@.len(),
                    i < entities@.len(),
                    es == entities@.map_values(|e: EntityTemplate| e@),
                    es[i as int] == EntityTemplateV::Struct(st@),
                    forall|q: int|
                        0 <= q < k ==> #[trigger] member_problem(es, st@.members[q]) is None,
                decreases st.members@.len() - k,
            {
                assert(st@.members[k as int] == st.members@[k as int]@);
                match validate_member(entities, &st.members[k]) {
                    Ok(()) => {},
                    Err(_) => {
                        return false;
                    },
                }
                k = k + 1;
            }
        }
        i = i + 1;
    }
    true
}

// -------------------------------------------------------------------------------------------------
// Building

/// The type that a name denotes: a built-in type or a defined entity.
pub open spec fn spec_make_variant(es: Seq<EntityTemplateV>, name: Seq<char>) -> Option<VariantV> {
    match builtin_of_name(name) {
        Some(b) => Some(VariantV::Field(b)),
        None => match first_template_named(es, name) {
            Some(i) => Some(
                match es[i] {
                    EntityTemplateV::Struct(_) => VariantV::Struct(name),
                    EntityTemplateV::Enum(_, _) => VariantV::Enum(name),
                    EntityTemplateV::Union(_, _) => VariantV::Union(name),
                },
            ),
            None => None,
        },
    }
}

/// The container that a template denotes.
pub open spec fn spec_convert_container(es: Seq<EntityTemplateV>, c: ContainerTemplateV) -> Option<
    ContainerV,
> {
    match c {
        ContainerTemplateV::Array => Some(ContainerV::Array),
        ContainerTemplateV::BTreeMap(k) => match spec_make_variant(es, k) {
            Some(v) => Some(ContainerV::BTreeMap(v)),
            None => None,
        },
        ContainerTemplateV::HashMap(k) => match spec_make_variant(es, k) {
            Some(v) => Some(ContainerV::HashMap(v)),
            None => None,
        },
        ContainerTemplateV::Plain => Some(ContainerV::Plain),
    }
}

/// The member that `Member::new` builds, or none when it refuses it.
pub open spec fn spec_member_new(
    rust_name: Seq<char>,
    db_name: Seq<char>,
    variant: VariantV,
    container: ContainerV,
    is_optional: bool,
    is_indexed: bool,
) -> Option<MemberV> {
    if has_forbidden_prefix(rust_name) || first_bad_db_char(db_name) is Some || (is_indexed
        && !variant_allows_indexing(variant)) {
        None
    } else {
        Some(MemberV { rust_name, db_name, variant, container, is_optional, is_indexed })
    }
}

/// The member built from a template: none when it lacks a name or its type, when a type is
/// unknown or when `Member::new` refuses it.
pub open spec fn spec_build_member(es: Seq<EntityTemplateV>, m: MemberTemplateV) -> Option<MemberV> {
    if m.rust_name is None || m.db_name is None || m.variant is None {
        None
    } else {
        spec_build_complete_member(es, m)
    }
}

/// The member built from a template that has its names and its type.
pub open spec fn spec_build_complete_member(es: Seq<EntityTemplateV>, m: MemberTemplateV) -> Option<
    MemberV,
> {
    match spec_make_variant(es, m.variant->Some_0) {
        None => None,
        Some(v) => match spec_convert_container(es, m.container) {
            None => None,
            Some(c) => spec_member_new(
                m.rust_name->Some_0,
                m.db_name->Some_0,
                v,
                c,
                m.is_optional,
                m.is_indexed,
            ),
        },
    }
}

/// The members built from the first `n` member templates: none when one of them cannot be
/// built.
pub open spec fn spec_build_members(es: Seq<EntityTemplateV>, ms: Seq<MemberTemplateV>, n: int) -> Option<
    Seq<MemberV>,
>
    decreases n,
{
    if n <= 0 || n > ms.len() {
        Some(Seq::empty())
    } else {
        match spec_build_members(es, ms, n - 1) {
            None => None,
            Some(prev) => match spec_build_member(es, ms[n - 1]) {
                None => None,
                Some(mv) => Some(prev.push(mv)),
            },
        }
    }
}

proof fn lemma_build_members_fails(es: Seq<EntityTemplateV>, ms: Seq<MemberTemplateV>, n: int, m: int)
    requires
        0 <= n <= m <= ms.len(),
        spec_build_members(es, ms, n) is None,
    ensures
        spec_build_members(es, ms, m) is None,
    decreases m - n,
{
    if n < m {
        lemma_build_members_fails(es, ms, n, m - 1);
    }
}

/// The entity built from a template (structures get no indexed fields yet).
pub open spec fn spec_build_entity(es: Seq<EntityTemplateV>, e: EntityTemplateV) -> Option<EntityV> {
    match e {
        EntityTemplateV::Struct(st) => match spec_build_members(
            es,
            st.members,
            st.members.len() as int,
        ) {
            Some(members) => Some(
                EntityV::Struct(
                    StructV {
                        name: st.struct_name,
                        collection: st.collection_name,
                        members,
                        indexed: Seq::empty(),
                    },
                ),
            ),
            None => None,
        },
        EntityTemplateV::Enum(n, cs) => Some(EntityV::Enum(n, cs)),
        EntityTemplateV::Union(n, cs) => Some(EntityV::Union(n, cs)),
    }
}

/// The entities built from the first `n` templates.
pub open spec fn spec_build(es: Seq<EntityTemplateV>, n: int) -> Option<Seq<EntityV>>
    decreases n,
{
    if n <= 0 || n > es.len() {
        Some(Seq::empty())
    } else {
        match spec_build(es, n - 1) {
            None => None,
            Some(prev) => match spec_build_entity(es, es[n - 1]) {
                Some(e) => Some(prev.push(e)),
                None => None,
            },
        }
    }
}

proof fn lemma_build_fails(es: Seq<EntityTemplateV>, n: int, m: int)
    requires
        0 <= n <= m <= es.len(),
        spec_build(es, n) is None,
    ensures
        spec_build(es, m) is None,
    decreases m - n,
{
    if n < m {
        lemma_build_fails(es, n, m - 1);
    }
}

/// The message for a type name that denotes nothing.
pub open spec fn unknown_type_message(name: Seq<char>) -> Seq<char> {
    "'"@ + name + "' is neither predefined nor defined in this scope"@
}

/// The key type named by a map container.
pub open spec fn container_key(c: ContainerTemplateV) -> Seq<char> {
    match c {
        ContainerTemplateV::BTreeMap(k) => k,
        ContainerTemplateV::HashMap(k) => k,
        _ => Seq::empty(),
    }
}

/// Why `Member::new` refuses a member, if it does.
pub open spec fn member_new_problem(
    rust_name: Seq<char>,
    db_name: Seq<char>,
    variant: VariantV,
    is_indexed: bool,
) -> Option<Seq<char>> {
    if has_forbidden_prefix(rust_name) {
        Some("Member name cannot start with '_huus'"@)
    } else if first_bad_db_char(db_name) is Some {
        Some(bad_db_char_message(db_name[first_bad_db_char(db_name)->0]))
    } else if is_indexed && !variant_allows_indexing(variant) {
        Some("Indexing not supported for this type"@)
    } else {
        None
    }
}

/// Why a member cannot be built from its template, if it cannot: a name or the type missing,
/// a type that denotes nothing, or the refusal of `Member::new`.
pub open spec fn member_build_problem(es: Seq<EntityTemplateV>, m: MemberTemplateV) -> Option<
    Seq<char>,
> {
    if m.rust_name is None {
        Some("Member name incomplete"@)
    } else if m.db_name is None {
        Some("Database entry name incomplete"@)
    } else if m.variant is None {
        Some("Member type incomplete"@)
    } else {
        match spec_make_variant(es, m.variant->Some_0) {
            None => Some(unknown_type_message(m.variant->Some_0)),
            Some(v) => match spec_convert_container(es, m.container) {
                None => Some(unknown_type_message(container_key(m.container))),
                Some(_) => member_new_problem(
                    m.rust_name->Some_0,
                    m.db_name->Some_0,
                    v,
                    m.is_indexed,
                ),
            },
        }
    }
}

/// The first of the first `n` members that cannot be built, with why.
pub open spec fn first_member_problem(es: Seq<EntityTemplateV>, ms: Seq<MemberTemplateV>, n: int) -> Option<
    (int, Seq<char>),
>
    decreases n,
{
    if n <= 0 || n > ms.len() {
        None
    } else {
        match first_member_problem(es, ms, n - 1) {
            Some(p) => Some(p),
            None => match member_build_problem(es, ms[n - 1]) {
                Some(m) => Some((n - 1, m)),
                None => None,
            },
        }
    }
}

/// The first member of the first `n` definitions that cannot be built, with why.
pub open spec fn first_build_problem(es: Seq<EntityTemplateV>, n: int) -> Option<ProblemV>
    decreases n,
{
    if n <= 0 || n > es.len() {
        None
    } else {
        match first_build_problem(es, n - 1) {
            Some(p) => Some(p),
            None => match es[n - 1] {
                EntityTemplateV::Struct(st) => match first_member_problem(
                    es,
                    st.members,
                    st.members.len() as int,
                ) {
                    Some(q) => Some(ProblemV { entity: n - 1, member: Some(q.0), message: q.1 }),
                    None => None,
                },
                _ => None,
            },
        }
    }
}

proof fn lemma_member_build_problem(es: Seq<EntityTemplateV>, m: MemberTemplateV)
    ensures
        spec_build_member(es, m) is None <==> member_build_problem(es, m) is Some,
{
}

proof fn lemma_first_member_problem(es: Seq<EntityTemplateV>, ms: Seq<MemberTemplateV>, n: int)
    requires
        0 <= n <= ms.len(),
    ensures
        spec_build_members(es, ms, n) is None <==> first_member_problem(es, ms, n) is Some,
    decreases n,
{
    if n > 0 {
        lemma_first_member_problem(es, ms, n - 1);
        lemma_member_build_problem(es, ms[n - 1]);
    }
}

proof fn lemma_first_member_problem_stays(es: Seq<EntityTemplateV>, ms: Seq<MemberTemplateV>, n: int, m: int)
    requires
        0 <= n <= m <= ms.len(),
        first_member_problem(es, ms, n) is Some,
    ensures
        first_member_problem(es, ms, m) == first_member_problem(es, ms, n),
    decreases m - n,
{
    if n < m {
        lemma_first_member_problem_stays(es, ms, n, m - 1);
    }
}

proof fn lemma_first_build_problem(es: Seq<EntityTemplateV>, n: int)
    requires
        0 <= n <= es.len(),
    ensures
        spec_build(es, n) is None <==> first_build_problem(es, n) is Some,
    decreases n,
{
    if n > 0 {
        lemma_first_build_problem(es, n - 1);
        if es[n - 1] is Struct {
            let ms = es[n - 1]->Struct_0.members;
            lemma_first_member_problem(es, ms, ms.len() as int);
        }
    }
}

proof fn lemma_first_build_problem_stays(es: Seq<EntityTemplateV>, n: int, m: int)
    requires
        0 <= n <= m <= es.len(),
        first_build_problem(es, n) is Some,
    ensures
        first_build_problem(es, m) == first_build_problem(es, n),
    decreases m - n,
{
    if n < m {
        lemma_first_build_problem_stays(es, n, m - 1);
    }
}

/// Searches for the index of the first entity template with the given name.
pub fn find_template(entities: &Vec<EntityTemplate>, name: &str) -> (r: Option<usize>)
    ensures
        match first_template_named(entities@.map_values(|e: EntityTemplate| e@), name@) {
            Some(k) => r == Some(k as usize) && k < entities@.len(),
            None => r is None,
        },
        r matches Some(i) ==> i < entities@.len() && first_template_named(
            entities@.map_values(|e: EntityTemplate| e@),
            name@,
        ) == Some(i as int),
{
    let ghost es = entities@.map_values(|e: EntityTemplate| e@);
    let mut i: usize = 0;
    while i < entities.len()
        invariant
            i <= entities@.len(),
            es == entities@.map_values(|e: EntityTemplate| e@),
            forall|j: int| 0 <= j < i ==> #[trigger] template_name(es[j]) != name@,
        decreases entities@.len() - i,
    {
        assert(template_name(es[i as int]) == entities@[i as int].spec_name());
        if str_eq(entities[i].name(), name) {
            let ghost k = first_template_named(es, name@)->0;
            proof {
                assert(template_name(es[i as int]) == name@);
                assert(k == i as int) by {
                    if k > i {
                        assert(template_name(es[i as int]) != name@);
                    }
                }
            }
            return Some(i);
        }
        i = i + 1;
    }
    None
}

/// Returns the type that a name denotes.
pub fn make_variant(entities: &Vec<EntityTemplate>, name: &String) -> (r: Option<Variant>)
    ensures
        match spec_make_variant(entities@.map_values(|e: EntityTemplate| e@), name@) {
            Some(v) => r matches Some(x) && x@ == v,
            None => r is None,
        },
{
    match BuiltInType::from_name(name.as_str()) {
        Ok(field) => Some(Variant::Field(field)),
        Err(_) => match find_template(entities, name.as_str()) {
            Some(i) => {
                let n = DefinedType::new(copy_string(name.as_str()));
                assert(entities@.map_values(|e: EntityTemplate| e@)[i as int] == entities@[i as int]@);
                match &entities[i] {
                    EntityTemplate::Struct(_) => Some(Variant::Struct(n)),
                    EntityTemplate::Enum(_) => Some(Variant::Enum(n)),
                    EntityTemplate::Union(_) => Some(Variant::Union(n)),
                }
            },
            None => None,
        },
    }
}

/// Returns the container that a template denotes.
pub fn convert_container(entities: &Vec<EntityTemplate>, template: &ContainerTemplate) -> (r: Option<
    Container,
>)
    ensures
        match spec_convert_container(entities@.map_values(|e: EntityTemplate| e@), template@) {
            Some(c) => r matches Some(x) && x@ == c,
            None => r is None,
        },
{
    match template {
        ContainerTemplate::Array => Some(Container::Array),
        ContainerTemplate::BTreeMap(k) => match make_variant(entities, k) {
            Some(v) => Some(Container::BTreeMap(v)),
            None => None,
        },
        ContainerTemplate::HashMap(k) => match make_variant(entities, k) {
            Some(v) => Some(Container::HashMap(v)),
            None => None,
        },
        ContainerTemplate::Plain => Some(Container::Plain),
    }
}


/// The message for a type name that denotes nothing.
fn unknown_type_text(name: &str) -> (r: String)
    ensures
        r@ == unknown_type_message(name@),
{
    let start = concat("'", name);
    concat(start.as_str(), "' is neither predefined nor defined in this scope")
}

/// Builds a member from its template; a member that cannot be built is refused with why.
fn build_member(entities: &Vec<EntityTemplate>, template: &MemberTemplate) -> (r: Result<Member, String>)
    ensures
        match spec_build_member(entities@.map_values(|e: EntityTemplate| e@), template@) {
            None => r matches Err(m) && member_build_problem(
                entities@.map_values(|e: EntityTemplate| e@),
                template@,
            ) == Some(m@),
            Some(mv) => r matches Ok(x) && x@ == mv,
        },
{
    let rust_name = match &template.rust_name {
        Some(r) => r,
        None => {
            return Err(copy_string("Member name incomplete"));
        },
    };
    let db_name = match &template.db_name {
        Some(d) => d,
        None => {
            return Err(copy_string("Database entry name incomplete"));
        },
    };
    let variant_name = match &template.variant {
        Some(v) => v,
        None => {
            return Err(copy_string("Member type incomplete"));
        },
    };
    let variant = match make_variant(entities, variant_name) {
        Some(v) => v,
        None => {
            return Err(unknown_type_text(variant_name.as_str()));
        },
    };
    let container = match convert_container(entities, &template.container) {
        Some(c) => c,
        None => {
            let key = match &template.container {
                ContainerTemplate::BTreeMap(k) => k.as_str(),
                ContainerTemplate::HashMap(k) => k.as_str(),
                _ => "",
            };
            return Err(unknown_type_text(key));
        },
    };
    match Member::new(
        copy_string(rust_name.as_str()),
        copy_string(db_name.as_str()),
        variant,
        container,
        template.is_optional,
        template.is_indexed,
    ) {
        Ok(member) => Ok(member),
        Err(ParseError::RustName(m)) => Err(m),
        Err(ParseError::DbName(m)) => Err(m),
        Err(ParseError::Type(m)) => Err(m),
    }
}

/// Builds the members of a structure from their templates.
#[verifier::rlimit(40)]
fn build_members(entities: &Vec<EntityTemplate>, members: &Vec<MemberTemplate>) -> (r: Result<
    Vec<Member>,
    (usize, String),
>)
    ensures
        match spec_build_members(
            entities@.map_values(|e: EntityTemplate| e@),
            members@.map_values(|m: MemberTemplate| m@),
            members@.len() as int,
        ) {
            Some(v) => r matches Ok(x) && x@.map_values(|m: Member| m@) == v,
            None => r matches Err(p) && first_member_problem(
                entities@.map_values(|e: EntityTemplate| e@),
                members@.map_values(|m: MemberTemplate| m@),
                members@.len() as int,
            ) == Some((p.0 as int, p.1@)),
        },
{
    let ghost es = entities@.map_values(|e: EntityTemplate| e@);
    let ghost ms = members@.map_values(|m: MemberTemplate| m@);
    let mut result: Vec<Member> = Vec::new();
    let mut i: usize = 0;
    assert(result@.map_values(|m: Member| m@) =~= Seq::<MemberV>::empty());
    while i < members.len()
        invariant
            i <= members@.len(),
            es == entities@.map_values(|e: EntityTemplate| e@),
            ms == members@.map_values(|m: MemberTemplate| m@),
            spec_build_members(es, ms, i as int) == Some(result@.map_values(|m: Member| m@)),
        decreases members@.len() - i,
    {
        let ghost before = result@.map_values(|m: Member| m@);
        assert(ms[i as int] == members@[i as int]@);
        match build_member(entities, &members[i]) {
            Err(message) => {
                proof {
                    lemma_build_members_fails(es, ms, i + 1, ms.len() as int);
                    lemma_first_member_problem(es, ms, i as int);
                    lemma_first_member_problem_stays(es, ms, i + 1, ms.len() as int);
                }
                return Err((i, message));
            },
            Ok(member) => {
                let ghost mv = member@;
                result.push(member);
                assert(result@.map_values(|m: Member| m@) =~= before.push(mv));
            },
        }
        i = i + 1;
    }
    Ok(result)
}

/// Builds the entity described by a template (structures get no indexed fields yet).
fn build_entity(entities: &Vec<EntityTemplate>, template: &EntityTemplate) -> (r: Result<Entity, (usize, String)>)
    ensures
        match spec_build_entity(entities@.map_values(|e: EntityTemplate| e@), template@) {
            Some(e) => r matches Ok(x) && x@ == e,
            None => r matches Err(p) && template@ is Struct && first_member_problem(
                entities@.map_values(|e: EntityTemplate| e@),
                template@->Struct_0.members,
                template@->Struct_0.members.len() as int,
            ) == Some((p.0 as int, p.1@)),
        },
{
    match template {
        EntityTemplate::Struct(st) => match build_members(entities, &st.members) {
            Ok(members) => {
                let collection_name = match &st.collection_name {
                    Some(c) => Some(copy_string(c.as_str())),
                    None => None,
                };
                let built = Struct {
                    struct_name: DefinedType::new(copy_string(st.struct_name.as_str())),
                    collection_name,
                    members,
                    indexed_fields: Vec::new(),
                };
                assert(built@.indexed =~= Seq::<Seq<char>>::empty());
                Ok(Entity::Struct(built))
            },
            Err(p) => Err(p),
        },
        EntityTemplate::Enum(e) => {
            let mut choices: Vec<crate::definition::output::EnumChoice> = Vec::new();
            let mut i: usize = 0;
            while i < e.choices.len()
                invariant
                    i <= e.choices@.len(),
                    choices@.len() == i,
                    forall|j: int|
                        0 <= j < i ==> crate::definition::output::enum_choice_view(
                            #[trigger] choices@[j],
                        ) == crate::definition::output::enum_choice_view(e.choices@[j]),
                decreases e.choices@.len() - i,
            {
                choices.push(e.choices[i].duplicate());
                i = i + 1;
            }
            let built = crate::definition::output::Enum {
                name: DefinedType::new(copy_string(e.name.as_str())),
                choices,
            };
            assert(built.choices@.map_values(
                |c: crate::definition::output::EnumChoice| crate::definition::output::enum_choice_view(c),
            ) =~= e.choices@.map_values(
                |c: crate::definition::output::EnumChoice| crate::definition::output::enum_choice_view(c),
            ));
            Ok(Entity::Enum(built))
        },
        EntityTemplate::Union(u) => {
            let mut choices: Vec<crate::definition::output::UnionChoice> = Vec::new();
            let mut i: usize = 0;
            while i < u.choices.len()
                invariant
                    i <= u.choices@.len(),
                    choices@.len() == i,
                    forall|j: int|
                        0 <= j < i ==> crate::definition::output::union_choice_view(
                            #[trigger] choices@[j],
                        ) == crate::definition::output::union_choice_view(u.choices@[j]),
                decreases u.choices@.len() - i,
            {
                choices.push(u.choices[i].duplicate());
                i = i + 1;
            }
            let built = crate::definition::output::Union {
                name: DefinedType::new(copy_string(u.name.as_str())),
                choices,
            };
            assert(built.choices@.map_values(
                |c: crate::definition::output::UnionChoice| crate::definition::output::union_choice_view(c),
            ) =~= u.choices@.map_values(
                |c: crate::definition::output::UnionChoice| crate::definition::output::union_choice_view(c),
            ));
            Ok(Entity::Union(built))
        },
    }
}

/// Builds the schema described by the templates (structures get no indexed fields yet).
pub fn build_schema(entities: &Vec<EntityTemplate>) -> (r: Result<Schema, DefinitionProblem>)
    ensures
        match spec_build(entities@.map_values(|e: EntityTemplate| e@), entities@.len() as int) {
            Some(v) => r matches Ok(x) && x@ == v,
            None => r matches Err(p) && first_build_problem(
                entities@.map_values(|e: EntityTemplate| e@),
                entities@.len() as int,
            ) == Some(p@),
        },
{
    let ghost es = entities@.map_values(|e: EntityTemplate| e@);
    let mut schema = Schema::new();
    let mut i: usize = 0;
    assert(schema@ =~= Seq::<EntityV>::empty());
    while i < entities.len()
        invariant
            i <= entities@.len(),
            es == entities@.map_values(|e: EntityTemplate| e@),
            spec_build(es, i as int) == Some(schema@),
        decreases entities@.len() - i,
    {
        let ghost before = schema@;
        let template = &entities[i];
        assert(es[i as int] == template@);
        match build_entity(entities, template) {
            Ok(e) => {
                let ghost ev = e@;
                schema.entities.push(e);
                assert(schema@ =~= before.push(ev));
            },
            Err((member, message)) => {
                proof {
                    lemma_build_fails(es, i + 1, es.len() as int);
                    lemma_first_build_problem(es, i as int);
                    lemma_first_build_problem_stays(es, i + 1, es.len() as int);
                }
                return Err(DefinitionProblem { entity: i, member: Some(member), message });
            },
        }
        i = i + 1;
    }
    Ok(schema)
}


// -------------------------------------------------------------------------------------------------
// Indexed fields

/// Index of the first entity with the given name.
pub open spec fn first_named(es: Seq<EntityV>, name: Seq<char>) -> Option<int> {
    if exists|i: int| 0 <= i < es.len() && #[trigger] es[i].name() == name {
        Some(choose|i: int|
            0 <= i < es.len() && #[trigger] es[i].name() == name && (forall|j: int|
                0 <= j < i ==> #[trigger] es[j].name() != name))
    } else {
        None
    }
}

/// The database names of the choices of the enum that keys a map container, if it is keyed by
/// an enum.
pub open spec fn map_keys(es: Seq<EntityV>, c: ContainerV) -> Seq<Seq<char>> {
    let key = match c {
        ContainerV::BTreeMap(v) => Some(v),
        ContainerV::HashMap(v) => Some(v),
        _ => None,
    };
    let name = match key {
        Some(VariantV::Struct(n)) => Some(n),
        Some(VariantV::Enum(n)) => Some(n),
        Some(VariantV::Union(n)) => Some(n),
        _ => None,
    };
    match name {
        Some(n) => match first_named(es, n) {
            Some(i) => match es[i] {
                EntityV::Enum(_, cs) => cs.map_values(|c: (Seq<char>, Seq<char>)| c.1),
                _ => Seq::empty(),
            },
            None => Seq::empty(),
        },
        None => Seq::empty(),
    }
}

/// The paths with the prefix put before each of them.
pub open spec fn prefixed(prefix: Seq<char>, paths: Seq<Seq<char>>) -> Seq<Seq<char>> {
    paths.map_values(|p: Seq<char>| prefix + p)
}

/// The paths under each of the first `n` keys of a map member.
pub open spec fn keyed(base: Seq<char>, keys: Seq<Seq<char>>, paths: Seq<Seq<char>>, n: int) -> Seq<
    Seq<char>,
>
    decreases n,
{
    if n <= 0 || n > keys.len() {
        Seq::empty()
    } else {
        keyed(base, keys, paths, n - 1) + prefixed(base + keys[n - 1] + "."@, paths)
    }
}

/// The indexed database paths of the structure with the given name, following embedded
/// structures `fuel` levels deep.
pub open spec fn spec_struct_indexed(es: Seq<EntityV>, name: Seq<char>, fuel: nat) -> Seq<Seq<char>>
    decreases fuel, 0int,
{
    if fuel == 0 {
        Seq::empty()
    } else {
        match first_named(es, name) {
            Some(i) => match es[i] {
                EntityV::Struct(s) => spec_members_indexed(
                    es,
                    s.members,
                    s.members.len() as int,
                    (fuel - 1) as nat,
                ),
                _ => Seq::empty(),
            },
            None => Seq::empty(),
        }
    }
}

/// The indexed database paths that a member contributes: itself when it is an indexed field,
/// and the indexed paths of an embedded structure under the member's name (and under each key of
/// maps keyed by an enum).
pub open spec fn spec_member_indexed(es: Seq<EntityV>, m: MemberV, fuel: nat) -> Seq<Seq<char>>
    decreases fuel, 1int,
{
    match m.variant {
        VariantV::Field(_) => if m.is_indexed {
            seq![m.db_name]
        } else {
            Seq::empty()
        },
        VariantV::Struct(t) => embedded_paths(
            es,
            m.db_name,
            m.container,
            spec_struct_indexed(es, t, fuel),
        ),
        _ => Seq::empty(),
    }
}

/// The indexed paths of an embedded structure under the name of the member holding it (and
/// under each key of a map keyed by an enum).
pub open spec fn embedded_paths(
    es: Seq<EntityV>,
    db_name: Seq<char>,
    container: ContainerV,
    nested: Seq<Seq<char>>,
) -> Seq<Seq<char>> {
    let keys = map_keys(es, container);
    let base = db_name + "."@;
    if keys.len() > 0 {
        keyed(base, keys, nested, keys.len() as int)
    } else {
        prefixed(base, nested)
    }
}

/// The indexed database paths of the first `n` members.
pub open spec fn spec_members_indexed(es: Seq<EntityV>, ms: Seq<MemberV>, n: int, fuel: nat) -> Seq<
    Seq<char>,
>
    decreases fuel, n + 1,
{
    if n <= 0 || n > ms.len() {
        Seq::empty()
    } else {
        spec_members_indexed(es, ms, n - 1, fuel) + spec_member_indexed(es, ms[n - 1], fuel)
    }
}

proof fn lemma_keyed_contains(
    base: Seq<char>,
    keys: Seq<Seq<char>>,
    paths: Seq<Seq<char>>,
    n: int,
    a: int,
    b: int,
)
    requires
        0 <= a < n <= keys.len(),
        0 <= b < paths.len(),
    ensures
        keyed(base, keys, paths, n).contains(base + keys[a] + "."@ + paths[b]),
    decreases n,
{
    let pre = keyed(base, keys, paths, n - 1);
    let suf = prefixed(base + keys[n - 1] + "."@, paths);
    assert(keyed(base, keys, paths, n) == pre + suf);
    if a == n - 1 {
        assert((pre + suf)[pre.len() + b] == suf[b]);
    } else {
        lemma_keyed_contains(base, keys, paths, n - 1, a, b);
        let w = choose|w: int| 0 <= w < pre.len() && pre[w] == base + keys[a] + "."@ + paths[b];
        assert((pre + suf)[w] == pre[w]);
    }
}

/// A member holding a structure in a map keyed by an enum contributes, for every database name
/// `k` of the enum's choices and every indexed path `f` of the structure, the indexed path
/// `db_name.k.f`; a `BTreeMap` and a `HashMap` keyed by the same enum contribute the same paths.
pub proof fn law_enum_keyed_member_paths(
    es: Seq<EntityV>,
    m: MemberV,
    fuel: nat,
    t: Seq<char>,
    e: Seq<char>,
    i: int,
    a: int,
    b: int,
)
    requires
        m.variant == VariantV::Struct(t),
        m.container == ContainerV::BTreeMap(VariantV::Enum(e)) || m.container == ContainerV::HashMap(
            VariantV::Enum(e),
        ),
        first_named(es, e) == Some(i),
        0 <= i < es.len(),
        es[i] is Enum,
        0 <= a < es[i]->Enum_1.len(),
        0 <= b < spec_struct_indexed(es, t, fuel).len(),
    ensures
        spec_member_indexed(es, m, fuel).contains(
            m.db_name + "."@ + es[i]->Enum_1[a].1 + "."@ + spec_struct_indexed(es, t, fuel)[b],
        ),
        spec_member_indexed(
            es,
            MemberV { container: ContainerV::HashMap(VariantV::Enum(e)), ..m },
            fuel,
        ) == spec_member_indexed(
            es,
            MemberV { container: ContainerV::BTreeMap(VariantV::Enum(e)), ..m },
            fuel,
        ),
{
    let cs = es[i]->Enum_1;
    let keys = cs.map_values(|c: (Seq<char>, Seq<char>)| c.1);
    lemma_enum_map_keys(es, e, i);
    assert(keys[a] == cs[a].1);
    let nested = spec_struct_indexed(es, t, fuel);
    let hm = MemberV { container: ContainerV::HashMap(VariantV::Enum(e)), ..m };
    let bm = MemberV { container: ContainerV::BTreeMap(VariantV::Enum(e)), ..m };
    assert(spec_member_indexed(es, m, fuel) == embedded_paths(es, m.db_name, m.container, nested));
    assert(spec_member_indexed(es, hm, fuel) == embedded_paths(es, m.db_name, hm.container, nested));
    assert(spec_member_indexed(es, bm, fuel) == embedded_paths(es, m.db_name, bm.container, nested));
    lemma_keyed_contains(m.db_name + "."@, keys, nested, keys.len() as int, a, b);
}

proof fn lemma_enum_map_keys(es: Seq<EntityV>, e: Seq<char>, i: int)
    requires
        first_named(es, e) == Some(i),
        0 <= i < es.len(),
        es[i] is Enum,
    ensures
        map_keys(es, ContainerV::BTreeMap(VariantV::Enum(e))) == es[i]->Enum_1.map_values(
            |c: (Seq<char>, Seq<char>)| c.1,
        ),
        map_keys(es, ContainerV::HashMap(VariantV::Enum(e))) == es[i]->Enum_1.map_values(
            |c: (Seq<char>, Seq<char>)| c.1,
        ),
{
}

/// An entity with the indexed paths of a structure filled in.
pub open spec fn entity_with_indexed(es: Seq<EntityV>, e: EntityV) -> EntityV {
    match e {
        EntityV::Struct(s) => EntityV::Struct(
            StructV { indexed: spec_struct_indexed(es, s.name, es.len()), ..s },
        ),
        _ => e,
    }
}

/// The entities with the indexed paths of each structure filled in.
pub open spec fn with_indexed(es: Seq<EntityV>) -> Seq<EntityV> {
    es.map_values(|e: EntityV| entity_with_indexed(es, e))
}


/// Searches for the index of the first entity with the given name.
fn find_named(schema: &Schema, name: &str) -> (r: Option<usize>)
    ensures
        match first_named(schema@, name@) {
            Some(k) => r == Some(k as usize),
            None => r is None,
        },
        r matches Some(i) ==> i < schema.entities@.len() && first_named(schema@, name@) == Some(
            i as int,
        ),
{
    let ghost es = schema@;
    let mut i: usize = 0;
    while i < schema.entities.len()
        invariant
            i <= schema.entities@.len(),
            es == schema@,
            forall|j: int| 0 <= j < i ==> #[trigger] es[j].name() != name@,
        decreases schema.entities@.len() - i,
    {
        assert(es[i as int] == schema.entities@[i as int]@);
        assert(es[i as int].name() == schema.entities@[i as int].spec_name());
        if str_eq(schema.entities[i].name(), name) {
            let ghost k = first_named(es, name@)->0;
            proof {
                assert(es[i as int].name() == name@);
                assert(k == i as int) by {
                    if k > i {
                        assert(es[i as int].name() != name@);
                    }
                }
            }
            return Some(i);
        }
        i = i + 1;
    }
    None
}

/// Returns the database names of the choices of the enum keying a map container.
fn map_keys_of(schema: &Schema, container: &Container) -> (r: Vec<String>)
    ensures
        r@.map_values(|s: String| s@) == map_keys(schema@, container@),
{
    let key = match container {
        Container::BTreeMap(v) | Container::HashMap(v) => v,
        _ => {
            return Vec::new();
        },
    };
    let name = match key {
        Variant::Struct(n) | Variant::Enum(n) | Variant::Union(n) => n,
        Variant::Field(_) => {
            return Vec::new();
        },
    };
    match find_named(schema, name.name.as_str()) {
        Some(i) => {
            assert(schema@[i as int] == schema.entities@[i as int]@);
            match &schema.entities[i] {
                Entity::Enum(e) => {
                    let names = e.to_db_names();
                    assert(names@.map_values(|s: String| s@) =~= e.choices@.map_values(
                        |c: crate::definition::output::EnumChoice|
                            crate::definition::output::enum_choice_view(c),
                    ).map_values(|c: (Seq<char>, Seq<char>)| c.1));
                    names
                },
                _ => Vec::new(),
            }
        },
        None => Vec::new(),
    }
}

/// Appends the paths, each one with the prefix put before it.
fn push_prefixed(out: &mut Vec<String>, prefix: &str, paths: &Vec<String>)
    ensures
        final(out)@.map_values(|s: String| s@) == old(out)@.map_values(|s: String| s@) + prefixed(
            prefix@,
            paths@.map_values(|s: String| s@),
        ),
{
    let ghost start = out@.map_values(|s: String| s@);
    let ghost ps = paths@.map_values(|s: String| s@);
    let mut i: usize = 0;
    while i < paths.len()
        invariant
            i <= paths@.len(),
            ps == paths@.map_values(|s: String| s@),
            out@.map_values(|s: String| s@) == start + prefixed(prefix@, ps.subrange(0, i as int)),
        decreases paths@.len() - i,
    {
        let ghost before = out@.map_values(|s: String| s@);
        let path = concat(prefix, paths[i].as_str());
        out.push(path);
        assert(prefixed(prefix@, ps.subrange(0, i + 1)) =~= prefixed(prefix@, ps.subrange(0, i as int)).push(prefix@ + ps[i as int]));
        assert(out@.map_values(|s: String| s@) =~= before.push(prefix@ + ps[i as int]));
        i = i + 1;
    }
    assert(ps.subrange(0, paths@.len() as int) =~= ps);
}

/// Computes the indexed database paths of the structure with the given name.
fn struct_indexed(schema: &Schema, name: &str, fuel: usize) -> (r: Vec<String>)
    ensures
        r@.map_values(|s: String| s@) == spec_struct_indexed(schema@, name@, fuel as nat),
    decreases fuel, 0int,
{
    if fuel == 0 {
        let r: Vec<String> = Vec::new();
        assert(r@.map_values(|s: String| s@) =~= Seq::<Seq<char>>::empty());
        return r;
    }
    match find_named(schema, name) {
        Some(i) => {
            assert(schema@[i as int] == schema.entities@[i as int]@);
            match &schema.entities[i] {
                Entity::Struct(s) => members_indexed(schema, &s.members, fuel - 1),
                _ => {
                    let r: Vec<String> = Vec::new();
                    assert(r@.map_values(|s: String| s@) =~= Seq::<Seq<char>>::empty());
                    r
                },
            }
        },
        None => {
            let r: Vec<String> = Vec::new();
            assert(r@.map_values(|s: String| s@) =~= Seq::<Seq<char>>::empty());
            r
        },
    }
}

/// Computes the indexed paths of an embedded structure under the name of the member holding it.
fn embedded(schema: &Schema, db_name: &String, container: &Container, nested: &Vec<String>) -> (r:
    Vec<String>)
    ensures
        r@.map_values(|s: String| s@) == embedded_paths(
            schema@,
            db_name@,
            container@,
            nested@.map_values(|s: String| s@),
        ),
{
    let mut out: Vec<String> = Vec::new();
    assert(out@.map_values(|s: String| s@) =~= Seq::<Seq<char>>::empty());
    let keys = map_keys_of(schema, container);
    let base = concat(db_name.as_str(), ".");
    if keys.len() > 0 {
        let ghost ks = keys@.map_values(|s: String| s@);
        let mut k: usize = 0;
        while k < keys.len()
            invariant
                k <= keys@.len(),
                ks == keys@.map_values(|s: String| s@),
                out@.map_values(|s: String| s@) == keyed(
                    base@,
                    ks,
                    nested@.map_values(|s: String| s@),
                    k as int,
                ),
            decreases keys@.len() - k,
        {
            let with_key = concat(base.as_str(), keys[k].as_str());
            let prefix = concat(with_key.as_str(), ".");
            push_prefixed(&mut out, prefix.as_str(), nested);
            k = k + 1;
        }
    } else {
        push_prefixed(&mut out, base.as_str(), nested);
        assert(out@.map_values(|s: String| s@) =~= prefixed(base@, nested@.map_values(|s: String| s@)));
    }
    out
}

/// Computes the indexed database paths that a member contributes.
fn member_indexed(schema: &Schema, member: &Member, fuel: usize) -> (r: Vec<String>)
    ensures
        r@.map_values(|s: String| s@) == spec_member_indexed(schema@, member@, fuel as nat),
    decreases fuel, 1int,
{
    let mut out: Vec<String> = Vec::new();
    assert(out@.map_values(|s: String| s@) =~= Seq::<Seq<char>>::empty());
    match &member.variant {
        Variant::Field(_) => {
            if member.is_indexed {
                out.push(copy_string(member.db_name.as_str()));
                assert(out@.map_values(|s: String| s@) =~= seq![member.db_name@]);
            }
        },
        Variant::Struct(t) => {
            let nested = struct_indexed(schema, t.name.as_str(), fuel);
            return embedded(schema, &member.db_name, &member.container, &nested);
        },
        _ => {},
    }
    out
}

/// Computes the indexed database paths of the members of a structure.
#[verifier::rlimit(80)]
fn members_indexed(schema: &Schema, members: &Vec<Member>, fuel: usize) -> (r: Vec<String>)
    ensures
        r@.map_values(|s: String| s@) == spec_members_indexed(
            schema@,
            members@.map_values(|m: Member| m@),
            members@.len() as int,
            fuel as nat,
        ),
    decreases fuel, 2int,
{
    let ghost ms = members@.map_values(|m: Member| m@);
    let mut out: Vec<String> = Vec::new();
    let mut i: usize = 0;
    assert(out@.map_values(|s: String| s@) =~= Seq::<Seq<char>>::empty());
    while i < members.len()
        invariant
            i <= members@.len(),
            ms == members@.map_values(|m: Member| m@),
            out@.map_values(|s: String| s@) == spec_members_indexed(
                schema@,
                ms,
                i as int,
                fuel as nat,
            ),
        decreases members@.len() - i,
    {
        assert(ms[i as int] == members@[i as int]@);
        let own = member_indexed(schema, &members[i], fuel);
        let ghost before = out@.map_values(|s: String| s@);
        let mut j: usize = 0;
        while j < own.len()
            invariant
                j <= own@.len(),
                out@.map_values(|s: String| s@) == before + own@.map_values(|s: String| s@).subrange(
                    0,
                    j as int,
                ),
            decreases own@.len() - j,
        {
            let ghost mid = out@.map_values(|s: String| s@);
            out.push(copy_string(own[j].as_str()));
            assert(out@.map_values(|s: String| s@) =~= mid.push(own@[j as int]@));
            assert(own@.map_values(|s: String| s@).subrange(0, j + 1) =~= own@.map_values(
                |s: String| s@,
            ).subrange(0, j as int).push(own@[j as int]@));
            j = j + 1;
        }
        assert(own@.map_values(|s: String| s@).subrange(0, own@.len() as int) =~= own@.map_values(
            |s: String| s@,
        ));
        i = i + 1;
    }
    out
}


/// The texts of a sequence of strings.
pub open spec fn strings_view(v: Seq<String>) -> Seq<Seq<char>> {
    v.map_values(|s: String| s@)
}

/// An entity with the given indexed paths, if it is a structure.
pub open spec fn filled_view(e: EntityV, indexed: Seq<Seq<char>>) -> EntityV {
    match e {
        EntityV::Struct(st) => EntityV::Struct(StructV { indexed, ..st }),
        other => other,
    }
}

/// Sets the indexed database paths of an entity that is a structure.
fn fill_entity(entity: Entity, list: Vec<String>) -> (r: Entity)
    ensures
        r@ == filled_view(entity@, strings_view(list@)),
{
    match entity {
        Entity::Struct(st) => {
            let filled = Struct {
                struct_name: st.struct_name,
                collection_name: st.collection_name,
                members: st.members,
                indexed_fields: list,
            };
            Entity::Struct(filled)
        },
        other => other,
    }
}

/// Fills in the indexed database paths of every structure.
#[verifier::rlimit(100)]
pub fn prepare(schema: Schema) -> (r: Schema)
    ensures
        r@ == with_indexed(schema@),
{
    let ghost es = schema@;
    let n = schema.entities.len();
    let mut lists: Vec<Vec<String>> = Vec::new();
    let mut i: usize = 0;
    while i < n
        invariant
            i <= n == schema.entities@.len(),
            es == schema@,
            lists@.len() == i,
            forall|j: int|
                0 <= j < i ==> (#[trigger] es[j] matches EntityV::Struct(st) ==> strings_view(
                    lists@[j]@,
                ) == spec_struct_indexed(es, st.name, es.len())),
        decreases n - i,
    {
        assert(es[i as int] == schema.entities@[i as int]@);
        let list = match &schema.entities[i] {
            Entity::Struct(st) => struct_indexed(&schema, st.struct_name.name.as_str(), n),
            _ => Vec::new(),
        };
        lists.push(list);
        i = i + 1;
    }
    proof {
        assert forall|j: int| 0 <= j < n implies filled_view(
            #[trigger] schema.entities@[j]@,
            strings_view(lists@[j]@),
        ) == entity_with_indexed(es, es[j]) by {
            assert(es[j] == schema.entities@[j]@);
        }
    }
    let mut entities = schema.entities;
    let mut out: Vec<Entity> = Vec::new();
    let mut k: usize = 0;
    assert(out@.map_values(|e: Entity| e@) =~= with_indexed(es).subrange(0, 0));
    while k < n
        invariant
            k <= n == es.len(),
            entities@.len() == n - k,
            lists@.len() == n - k,
            forall|j: int|
                0 <= j < n - k ==> filled_view(#[trigger] entities@[j]@, strings_view(lists@[j]@))
                    == entity_with_indexed(es, es[j + k]),
            out@.map_values(|e: Entity| e@) == with_indexed(es).subrange(0, k as int),
        decreases n - k,
    {
        let ghost before = out@.map_values(|e: Entity| e@);
        let ghost old_entities = entities@;
        let ghost old_lists = lists@;
        let ghost expected = entity_with_indexed(es, es[k as int]);
        assert(filled_view(entities@[0]@, strings_view(lists@[0]@)) == expected);
        let entity = entities.remove(0);
        let list = lists.remove(0);
        let filled = fill_entity(entity, list);
        let ghost fv = filled@;
        out.push(filled);
        assert(out@.map_values(|e: Entity| e@) =~= before.push(fv));
        assert(with_indexed(es)[k as int] == expected);
        assert(with_indexed(es).subrange(0, k + 1) =~= with_indexed(es).subrange(0, k as int).push(
            expected,
        ));
        proof {
            assert forall|j: int| 0 <= j < n - (k + 1) implies filled_view(
                #[trigger] entities@[j]@,
                strings_view(lists@[j]@),
            ) == entity_with_indexed(es, es[j + (k + 1)]) by {
                assert(entities@[j] == old_entities[j + 1]);
                assert(lists@[j] == old_lists[j + 1]);
            }
        }
        k = k + 1;
    }
    assert(with_indexed(es).subrange(0, n as int) =~= with_indexed(es));
    Schema { entities: out }
}


// -------------------------------------------------------------------------------------------------
// Verification

/// The schema that valid definitions describe: the built entities with the indexed paths of the
/// structures filled in; none when the definitions are not valid or cannot be built.
pub open spec fn spec_verify(es: Seq<EntityTemplateV>) -> Option<Seq<EntityV>> {
    if !spec_validate(es) {
        None
    } else {
        match spec_build(es, es.len() as int) {
            Some(built) => Some(with_indexed(built)),
            None => None,
        }
    }
}

/// Why schema definitions were refused.
#[derive(Debug)]
pub enum SchemaError {
    /// Names or collections given twice, or map keys that are neither `String` nor an enum:
    /// every problem found, in the order of the definitions.
    Invalid(Vec<DefinitionProblem>),
    /// The first member that cannot be built: it names a type that is not defined, lacks a
    /// name or a type, or is refused by `Member::new`.
    Unbuildable(DefinitionProblem),
}

/// Checks the parsed schema definitions and builds the schema.
pub struct Validator {
    /// The parsed definitions.
    pub entities: Vec<EntityTemplate>,
}

impl Validator {
    /// Constructs a new `Validator`.
    pub fn new(entities: Vec<EntityTemplate>) -> (r: Self)
        ensures
            r.entities == entities,
    {
        Self { entities }
    }

    /// Validates the definitions and builds the schema. Invalid definitions are refused with
    /// every problem found in them.
    pub fn verify(self) -> (r: Result<Generator, SchemaError>)
        ensures
            match spec_verify(self.entities@.map_values(|e: EntityTemplate| e@)) {
                Some(v) => r matches Ok(g) && g.schema@ == v,
                None => if spec_validate(self.entities@.map_values(|e: EntityTemplate| e@)) {
                    r matches Err(SchemaError::Unbuildable(p)) && first_build_problem(
                        self.entities@.map_values(|e: EntityTemplate| e@),
                        self.entities@.len() as int,
                    ) == Some(p@)
                } else {
                    r matches Err(SchemaError::Invalid(ps)) && ps@.len() > 0 && problems_view(ps@)
                        == definition_problems(
                        self.entities@.map_values(|e: EntityTemplate| e@),
                        self.entities@.len() as int,
                    )
                },
            },
    {
        if !validate(&self.entities) {
            let problems = problems_of(&self.entities);
            proof {
                law_valid_iff_no_problem(self.entities@.map_values(|e: EntityTemplate| e@));
            }
            return Err(SchemaError::Invalid(problems));
        }
        match build_schema(&self.entities) {
            Ok(schema) => Ok(Generator::new(prepare(schema))),
            Err(problem) => Err(SchemaError::Unbuildable(problem)),
        }
    }
}

/// A verified schema, ready for code generation.
pub struct Generator {
    /// The schema.
    pub schema: Schema,
}

impl Generator {
    /// Constructs a new `Generator`.
    pub fn new(schema: Schema) -> (r: Self)
        ensures
            r.schema == schema,
    {
        Self { schema }
    }

    /// Returns the schema to be used for code generation.
    pub fn into_schema(self) -> (r: Schema)
        ensures
            r == self.schema,
    {
        self.schema
    }
}

}
