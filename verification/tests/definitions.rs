//! Schemas: their parsing, their verification and what is derived from them.

use huus::commands::CreateIndexesCommand;
use huus::definition::generator::GeneratorCallback;
use huus::definition::interpreter::{DefinitionError, Interpreter as Definition, ParseFailure};
use huus::definition::validator::{DefinitionProblem, SchemaError, Validator};
use huus::parser::Diagnostic;
use huus::definition::output::{Entity, Schema};
use huus::formulation::interpreter::{Interpreter as Formulation, QueryFailure};
use huus::formulation::validator::Problem;
use huus::document::{Bson, Document};
use huus::tokens::{Delimiter, TokenTree};

/// The schema the queries are checked against.
const TEST_SCHEMA: &str = r#"
pub enum Enum1 {
    Choice1 as "choice_1",
    Choice2 as "choice_2",
}

pub struct Doc1 {
    integer as "int": i32?,
    string as "str": String+,
    array: Vec String?,
}

pub enum Union1 {
    Choice1 as "choice_1": Doc1,
    Choice2 as "choice_2": Doc2,
}

pub struct Doc2 in "coll_2" {
    data: Doc1?,
    string as "str": String?,
}

pub struct Doc3 in "coll_3" {
    object_id as "_id": ObjectId,
    data: Doc1,
    array: Vec Doc1,
    simple_map: BTreeMap String String,
    nested_map: BTreeMap Enum1 Doc1,
    boolean: bool,
    date: Date,
    indexed: String+,
    integers: Vec i64,
    choice: Enum1,
    union: Union1,
    bson: Bson,
}
"#;

/// Converts the tokens of a stream into the token trees of the library.
fn convert_stream(stream: proc_macro2::TokenStream) -> Vec<TokenTree> {
    stream
        .into_iter()
        .map(|tree| match tree {
            proc_macro2::TokenTree::Group(group) => {
                let delimiter = match group.delimiter() {
                    proc_macro2::Delimiter::Parenthesis => Delimiter::Parenthesis,
                    proc_macro2::Delimiter::Brace => Delimiter::Brace,
                    proc_macro2::Delimiter::Bracket => Delimiter::Bracket,
                    proc_macro2::Delimiter::None => Delimiter::Invisible,
                };
                let text = group.stream().to_string();
                TokenTree::Group(delimiter, convert_stream(group.stream()), text)
            }
            proc_macro2::TokenTree::Ident(ident) => TokenTree::Ident(ident.to_string()),
            proc_macro2::TokenTree::Punct(punct) => TokenTree::Punct(punct.as_char()),
            proc_macro2::TokenTree::Literal(literal) => TokenTree::Literal(literal.to_string()),
        })
        .collect()
}

/// Splits a text into token trees.
fn lex(text: &str) -> Vec<TokenTree> {
    convert_stream(text.parse::<proc_macro2::TokenStream>().expect("Lex the text"))
}

/// Parses and verifies the test schema.
fn test_schema() -> Schema {
    Definition::new()
        .parse_instruction_stream(&lex(TEST_SCHEMA))
        .expect("Parse the schema")
        .build()
        .verify()
        .expect("Verify the schema")
        .into_schema()
}


fn doc(entries: Vec<(&str, Bson)>) -> Document {
    let mut result = Document::new();
    for (key, value) in entries {
        result.insert(key.to_string(), value);
    }
    result
}

/// Whether a schema text parses and verifies.
fn accepted(text: &str) -> bool {
    match Definition::new().parse_instruction_stream(&lex(text)) {
        Ok(interpreter) => interpreter.build().verify().is_ok(),
        Err(_) => false,
    }
}

/// The indexed fields of the structure of the given name.
fn indexed_fields(schema: &Schema, name: &str) -> Vec<String> {
    for entity in schema.entities.iter() {
        if let Entity::Struct(s) = entity {
            if s.struct_name.name == name {
                return s.indexed_fields.clone();
            }
        }
    }
    panic!("No structure named {}", name);
}

/// Verify index creation query.
#[test]
fn create_indexes_query() {
    let indexed = vec![
        "data.str".to_string(),
        "array.str".to_string(),
        "nested_map.choice_1.str".to_string(),
        "nested_map.choice_2.str".to_string(),
        "indexed".to_string(),
    ];
    let schema = test_schema();
    assert_eq!(indexed_fields(&schema, "Doc3"), indexed);

    let command = CreateIndexesCommand::new("coll_3".to_string(), indexed_fields(&schema, "Doc3"));
    let expected = CreateIndexesCommand::new("coll_3".to_string(), indexed);
    assert_eq!(command.get_command(), expected.get_command());
}

#[test]
fn indexed_fields_of_embedded_structures() {
    let schema = test_schema();
    assert_eq!(indexed_fields(&schema, "Doc1"), vec!["str".to_string()]);
    assert_eq!(indexed_fields(&schema, "Doc2"), vec!["data.str".to_string()]);
}

#[test]
fn index_command_keys() {
    let command = CreateIndexesCommand::new("coll_2".to_string(), vec!["data.str".to_string()]);
    let keys = Bson::Document(doc(vec![("data.str", Bson::String("text".to_string()))]));
    let index = Bson::Document(doc(vec![("name", Bson::String("coll_2".to_string())), ("key", keys)]));
    let expected = doc(vec![
        ("createIndexes", Bson::String("coll_2".to_string())),
        ("indexes", Bson::Array(vec![index])),
    ]);
    assert_eq!(command.get_command(), Some(&expected));
}

#[test]
fn collection_type_names() {
    let callback = GeneratorCallback::new();
    assert_eq!(callback.make_coll_name(&"coll_2".to_string()), "Coll2");
    assert_eq!(callback.make_coll_name(&"abc_collection".to_string()), "AbcCollection");
    assert_eq!(callback.make_coll_name(&"abc".to_string()), "Abc");
    assert_eq!(callback.make_coll_name(&"".to_string()), "");
}

#[test]
fn schema_is_accepted() {
    assert!(accepted(TEST_SCHEMA));
}

#[test]
fn duplicated_entity_names_are_refused() {
    assert!(!accepted("pub struct A { x: i32, } pub struct A { y: i32, }"));
}

#[test]
fn duplicated_collections_are_refused() {
    assert!(!accepted(r#"pub struct A in "c" { x: i32, } pub struct B in "c" { y: i32, }"#));
}

#[test]
fn unknown_member_types_are_refused() {
    assert!(!accepted("pub struct A { x: Unknown, }"));
}

/// The problems reported for a schema text that parses.
fn problems(text: &str) -> Vec<DefinitionProblem> {
    let interpreter = Definition::new().parse_instruction_stream(&lex(text)).expect("Parse the schema");
    match interpreter.build().verify() {
        Ok(_) => Vec::new(),
        Err(SchemaError::Invalid(problems)) => problems,
        Err(SchemaError::Unbuildable(_)) => panic!("The schema is valid but cannot be built"),
    }
}

fn problem(entity: usize, member: Option<usize>, message: &str) -> DefinitionProblem {
    DefinitionProblem { entity, member, message: message.to_string() }
}

#[test]
fn redefinitions_are_reported_at_the_later_definition() {
    assert_eq!(
        problems("pub struct A { x: i32, } pub struct A { y: i32, }"),
        vec![problem(1, None, "Structure redefined")]
    );
    assert_eq!(
        problems(r#"pub struct A in "c" { x: i32, } pub struct B in "c" { y: i32, }"#),
        vec![problem(1, None, "Main document schema already assigned for this collection")]
    );
    assert_eq!(
        problems(r#"pub struct A { x: i32, } pub enum A { B as "b", C as "c", }"#),
        vec![problem(1, None, "Enum redefined")]
    );
    assert_eq!(
        problems(r#"pub struct A { x: i32, } pub enum A { B as "b": A, C as "c": A, }"#),
        vec![problem(1, None, "Union redefined")]
    );
}

#[test]
fn map_keys_are_reported_at_the_member() {
    let text = r#"
        pub struct D { x: i32, }
        pub enum E { A as "a", B as "b", }
        pub struct S {
            a: BTreeMap String D,
            b: HashMap i32 D,
            c: BTreeMap D D,
            d: HashMap E D,
            e: BTreeMap F D,
        }
    "#;
    assert_eq!(
        problems(text),
        vec![
            problem(2, Some(1), "Only 'String' can be used as a key"),
            problem(2, Some(2), "Type 'D' is not an huus enum"),
            problem(2, Some(4), "Type 'F' is neither not (pre)defined"),
        ]
    );
}

#[test]
fn every_problem_is_reported_in_order() {
    let text = r#"
        pub struct A in "c" { m: HashMap i32 A, }
        pub struct A in "c" { n: Vec i32, }
    "#;
    assert_eq!(
        problems(text),
        vec![
            problem(0, Some(0), "Only 'String' can be used as a key"),
            problem(1, None, "Structure redefined"),
            problem(1, None, "Main document schema already assigned for this collection"),
        ]
    );
}

/// The problem reported for a valid schema text whose members cannot all be built.
fn build_problem(text: &str) -> DefinitionProblem {
    let interpreter = Definition::new().parse_instruction_stream(&lex(text)).expect("Parse the schema");
    match interpreter.build().verify() {
        Err(SchemaError::Unbuildable(problem)) => problem,
        Err(SchemaError::Invalid(_)) => panic!("The schema is invalid"),
        Ok(_) => panic!("The schema was built"),
    }
}

#[test]
fn unbuildable_members_are_reported() {
    assert_eq!(
        build_problem("pub struct A { x: i32, } pub struct B { y: i32, z: Unknown, w: Other, }"),
        problem(1, Some(1), "'Unknown' is neither predefined nor defined in this scope")
    );
    assert_eq!(
        build_problem("pub struct A { _huus_x: i32, }"),
        problem(0, Some(0), "Member name cannot start with '_huus'")
    );
    assert!(matches!(Validator::new(Vec::new()).verify(), Ok(_)));
}

#[test]
fn empty_definitions_are_refused() {
    assert_eq!(
        Definition::new().parse_instruction_stream(&lex("")).err(),
        Some(DefinitionError::Empty("The specification seems to be empty".to_string()))
    );
}

/// Where the reading of a schema text stopped and why.
fn parse_failure(text: &str) -> ParseFailure {
    match Definition::new().parse_instruction_stream(&lex(text)) {
        Err(DefinitionError::Malformed(failure)) => failure,
        _ => panic!("The schema text was not refused as malformed"),
    }
}

fn failure(group: Option<usize>, position: usize, message: &str) -> ParseFailure {
    ParseFailure { group, position, message: message.to_string() }
}

#[test]
fn malformed_definitions_are_reported_where_reading_stopped() {
    assert_eq!(parse_failure("struct A { x: i32, }"), failure(None, 0, "Expected ident 'pub'"));
    assert_eq!(parse_failure("42"), failure(None, 0, "Expected an ident or end of stream"));
    assert_eq!(parse_failure("pub thing A { }"), failure(None, 1, "Expected 'struct' or 'enum'"));
    assert_eq!(
        parse_failure("pub struct A in 7 { x: i32, }"),
        failure(None, 4, "Expected a literal string")
    );
    assert_eq!(
        parse_failure("pub struct A for { x: i32, }"),
        failure(None, 3, "Expected ident 'in', found 'for'")
    );
    assert_eq!(parse_failure("pub struct A ;"), failure(None, 3, "Expected a group, found a punctuation"));
    assert_eq!(
        parse_failure("pub struct A { x i32, }"),
        failure(Some(3), 1, "Expected ident 'as', found 'i32'")
    );
    assert_eq!(
        parse_failure("pub struct A { x; i32, }"),
        failure(Some(3), 1, "Expected punctuation ':', found ';'")
    );
    assert_eq!(
        parse_failure("pub struct A { x: i32? }"),
        failure(Some(3), 4, "Expected a punctuation, but the stream ended")
    );
    assert_eq!(parse_failure("pub enum E { }"), failure(None, 3, "The enum cannot be empty"));
    assert_eq!(
        parse_failure(r#"pub enum E { A as "a", B as "b": S, }"#),
        failure(None, 3, "The enum must have all entries with type or all entries without type")
    );
    assert_eq!(
        parse_failure(r#"pub enum E { A as "a" B as "b", }"#),
        failure(Some(3), 3, "Expected ',' or end of stream")
    );
    assert_eq!(parse_failure(r#"pub enum E { "a", }"#), failure(Some(3), 0, "Expected identifier"));
}

#[test]
fn malformed_schemas_are_refused() {
    assert!(!accepted("pub struct A { x i32, }"));
    assert!(!accepted("struct A { x: i32, }"));
}

/// The member of the given name of the structure of the given name.
fn member<'a>(schema: &'a Schema, structure: &str, name: &str) -> &'a huus::definition::output::Member {
    for entity in schema.entities.iter() {
        if let Entity::Struct(s) = entity {
            if s.struct_name.name == structure {
                for m in s.members.iter() {
                    if m.rust_name == name {
                        return m;
                    }
                }
            }
        }
    }
    panic!("No member {}.{}", structure, name);
}

#[test]
fn member_type_names() {
    let schema = test_schema();

    let array = member(&schema, "Doc3", "array");
    assert_eq!(array.to_data(), "Vec<Doc1Data>");
    assert_eq!(array.to_filter(), "huus::filters::ArrayEntry<Doc1Filter, Doc1Data>");
    assert_eq!(array.to_value(), "huus::values::ArrayEntry<Doc1Value>");
    assert_eq!(array.to_update(), "huus::updates::ArrayEntry<Doc1Update, Doc1Value>");
    assert_eq!(array.from_doc_getter(), "get_array");
    assert_eq!(array.to_conversion(), "value.clone().huus_into_struct()?");
    assert_eq!(array.to_default(), Some("Vec::new()"));

    let map = member(&schema, "Doc3", "simple_map");
    assert_eq!(map.to_data(), "std::collections::BTreeMap<String, String>");
    assert_eq!(map.to_filter(), "huus::filters::BTreeMapEntry<String, String>");
    assert_eq!(map.to_default(), Some("std::collections::BTreeMap::new()"));

    let choice = member(&schema, "Doc3", "choice");
    assert_eq!(choice.to_data(), "Enum1Data");
    assert_eq!(choice.to_filter(), "huus::filters::EnumEntry<Enum1Data>");
    assert_eq!(choice.to_update(), "huus::updates::EnumEntry<Enum1Value>");
    assert_eq!(choice.to_value(), "huus::values::Entry<Enum1Value>");
    assert_eq!(choice.to_conversion(), "Enum1Data::from_str(&value)?");
    assert_eq!(choice.to_default(), None);

    let data = member(&schema, "Doc3", "data");
    assert_eq!(data.to_filter(), "huus::filters::ObjectEntry<Doc1Filter, Doc1Data>");
    assert_eq!(data.to_update(), "huus::updates::ObjectEntry<Doc1Update, Doc1Value>");
    assert_eq!(data.to_conversion(), "Doc1Data::from_doc(value.clone())?");
    assert_eq!(data.from_doc_getter(), "get_document");

    let indexed = member(&schema, "Doc3", "indexed");
    assert_eq!(indexed.to_data(), "String");
    assert_eq!(indexed.to_filter(), "huus::filters::StringEntry");
    assert_eq!(indexed.to_update(), "huus::updates::StringEntry");
    assert_eq!(indexed.from_doc_getter(), "get_str");
}

#[test]
fn schema_file_names() {
    assert_eq!(Definition::file_name_of_stream(&lex(r#""test""#)), Ok("test".to_string()));
    assert_eq!(
        Definition::file_name_of_stream(&lex(r#""a" "b""#)),
        Err(Diagnostic {
            position: 1,
            message: "Expected end of the macro, found a literal".to_string(),
        })
    );
    assert_eq!(
        Definition::file_name_of_stream(&lex("test")),
        Err(Diagnostic { position: 0, message: "Expected a literal, found an ident".to_string() })
    );
    assert_eq!(
        Definition::file_name_of_stream(&lex("42")),
        Err(Diagnostic { position: 0, message: "Expected a literal string".to_string() })
    );
}

#[test]
fn queries_on_unknown_collections_are_refused() {
    let schema = test_schema();
    let query = || lex(r#" ("coll_9") "str": "abc", "#);
    let problems = |result: Result<_, huus::formulation::validator::Verdict>| match result {
        Ok(_) => Vec::new(),
        Err(verdict) => verdict.problems,
    };
    let data = Formulation::new().parse(&query()).unwrap().build(&schema).verify_data();
    assert_eq!(problems(data), vec![Problem::MainDocNotDefined]);
    let filter = Formulation::new().parse(&query()).unwrap().build(&schema).verify_filter();
    assert_eq!(problems(filter), vec![Problem::MainDocNotDefined]);
    let update = Formulation::new().parse(&query()).unwrap().build(&schema).verify_update();
    assert_eq!(problems(update), vec![Problem::MainDocNotDefined]);
}

/// Where the reading of a query stopped and why.
fn query_failure(text: &str) -> QueryFailure {
    match Formulation::new().parse(&lex(text)) {
        Err(failure) => failure,
        Ok(_) => panic!("The query was read"),
    }
}

fn at(groups: Vec<usize>, position: usize, message: &str) -> QueryFailure {
    QueryFailure { groups, position, message: message.to_string() }
}

#[test]
fn malformed_queries_are_reported_where_reading_stopped() {
    assert_eq!(query_failure(""), at(vec![], 0, "Expected a group, but the stream ended"));
    assert_eq!(query_failure(r#""c" a: 1"#), at(vec![], 0, "Expected a group, found a literal"));
    assert_eq!(query_failure("(c) a: 1"), at(vec![0], 0, "Expected a literal, found an ident"));
    assert_eq!(
        query_failure(r#"("c" "d") a: 1"#),
        at(vec![0], 1, "Expected end of the macro, found a literal")
    );
    assert_eq!(
        query_failure(r#"("c") a; 1"#),
        at(vec![], 2, "Expected a colon (':') or a dot ('.')")
    );
    assert_eq!(
        query_failure(r#"("c") "a" 1"#),
        at(vec![], 2, "Expected a punctuation, found a literal")
    );
    assert_eq!(
        query_failure(r#"("c") a: 1 b: 2"#),
        at(vec![], 4, "Expected a punctuation, found an ident")
    );
    assert_eq!(
        query_failure(r#"("c") { a: { b: [1] } }"#),
        at(vec![1, 2], 2, "Expected '()' or '{}' block")
    );
    assert_eq!(
        query_failure(r#"("c") a: 1; b: 2"#),
        at(vec![], 4, "Expected punctuation ',', found ';'")
    );
    assert_eq!(
        query_failure(r#"("c") a: ,"#),
        at(vec![], 3, "Expected a literal value or '()' or '{}' block")
    );
    assert_eq!(
        query_failure(r#"("c") , a: 1"#),
        at(vec![], 1, "Expected an identifier or parenthesis '()'")
    );
    assert_eq!(
        query_failure(r#"("c") a"#),
        at(vec![], 2, "Expected a punctuation, but the stream ended")
    );
}
