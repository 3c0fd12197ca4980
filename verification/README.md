# fabriko

Factories for test fixtures: resources created inside a context, their
associations (a resource that belongs to another, has one or many related
resources), dependant attributes, mixins shared between factories, and
bundles that set up several resources at once; plus the code generation
behind the derives that write such factories.

Layout:

- `src/` — the library, verified with Verus.
  - `factory.rs`, `context.rs`, `bundle.rs`, `mixins.rs`, `tuple_hack.rs`,
    `associations/` — the runtime: how factories, tuples of factories and
    associations create resources, in which order, and what happens on error.
  - `codegen/` — the text of the code each derive generates, built from plain
    descriptions of the annotated items and stated exactly by spec functions;
    `codegen/tokens.rs` holds the calls into `proc_macro2` (lexing) and `fnv`
    (the hash that names the link between two factories).
- `app/` — the derive entry points over `proc_macro2` token streams: they read
  their input with `syn` and `darling` and hand plain values to the library.
- `tests/` — tests of both parts.
