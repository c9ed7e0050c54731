# golem_api_model

Component-model values paired with their types, and the decisions of an API
definition registry, verified with Verus.

- `src/analysed_type.rs`: WIT types, structural type equality, type builders.
- `src/value.rs`: values, and when a value has a type.
- `src/value_and_type.rs`: values paired with types; the `IntoValue` and
  `IntoValueAndType` conversions; splitting a list value into its items.
- `src/into_value.rs`: conversions of integers, characters, strings, results,
  options, vectors, tuples, hash maps, UUIDs, durations and instants.
- `src/wit.rs`: the flat node encoding of values and its conversion.
- `src/platform.rs`: the trusted calls into std's clock and hash maps and
  into the `uuid` crate.
- `src/api_definition.rs`: identifiers, keys and errors of the registry.
- `src/service.rs`: the registration state machine and the answers to
  look-ups, deletions and listings.
- `app/`: the asynchronous service that performs the calls to templates,
  validator and store, and conversions to `golem-wasm-ast`, `uuid`, `serde`
  and `thiserror` types.
