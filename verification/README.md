# hax_frontend_exporter

Extraction of *full definitions* from a Rust compiler session: for each definition of a program,
its generics and predicates, its signature or type, its associated items, its place in the source,
and whatever else its kind calls for.

- `src/` is the library, verified with Verus. It works on a table of the compiler's answers
  (`tcx::TyCtxt`), which is accepted only if it is complete, and on types as terms that it builds
  but does not evaluate.
  - `def_id`, `span`, `ty`, `body`: the vocabulary.
  - `tcx`, `tcx_check`, `queries`: the table, when it is complete, and questions to it.
  - `state`, `convert`, `traits`, `rustc_utils`: exporting the compiler's values, and the rules for
    asking it.
  - `full_def`, `full_def_spec`: full definitions, and what makes a value the full definition of a
    definition.
  - `simple_kinds`, `lookup`, `cache`, `children`: assembling and looking up full definitions.
  - `def_laws`, `item_laws`, `caching_laws`, `uniqueness`: what holds of full definitions.
- `app/` asks the compiler and evaluates the terms. It needs a toolchain with the compiler's own
  crates.
- `tests/` holds the tests of the library.
