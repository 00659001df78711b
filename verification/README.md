# huus

Schemas of MongoDB documents and the queries written against them, verified with Verus.

- `src/definition`: schema definitions (`pub struct Doc in "coll" { member as "name": Type+? }`,
  enums and unions) are parsed from token trees, validated (unique names, unique collections,
  known member types, indexing only on indexable types) and turned into a schema whose
  structures know their indexed fields. Refusals carry their messages: each problem of the
  validation with the definition and member it concerns, and the first member that cannot be
  built.
- `src/formulation`: `data`, `filter` and `update` queries are parsed and checked against a
  schema; what is refused is reported as a list of problems.
- `src/document.rs`, `src/values.rs`, `src/filters.rs`, `src/updates.rs`: BSON documents and the
  typed builders of values, filters and updates.
- `src/commands.rs`, `src/query`: the commands sent to the database for the collection of a
  document type.
- `src/parser.rs`, `src/tokens.rs`: the token trees of the macro input and a cursor over them;
  a token tree it refuses is reported with its position and what was expected and found.
- `app/`: conversion to and from the `bson` crate, running the commands with `mongo_driver`, maps
  written as documents (their order rests on the key types' `Ord` and `Hash`), and
  reading schema files.
