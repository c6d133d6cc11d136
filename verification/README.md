# gitweb_domain

The domain of a gitweb-compatible repository browser, written in Verus: every
rule is an executable function whose contract Verus proves.

- `src/model/`: entities and pure rules: request validation, site and
  per-project settings, object ids and refs, commit subjects and dates,
  `chop_str`, the search patterns and highlights, blame runs, diffs and
  patch text, feeds, blob presentation, snapshot naming.
- `src/port/`: the `Repository` and `ProjectStore` traits the use cases read
  through. Nothing is assumed of what an implementation answers; every use
  case is verified for every answer.
- `src/usecase/`: one module per gitweb view, assembling its view-model from
  the port's answers.
- `src/text.rs`: character-level helpers with their specifications.
- `tests/`: tests on concrete values, with an in-memory repository.

The `regex` crate compiles and runs the search expressions; the few calls
into it, and into `std` where `vstd` gives no specification, are the trusted
wrappers in `src/model/search_pattern.rs`, `src/model/url.rs`,
`src/model/encoding.rs` and `src/text.rs`.

The laws are the public `lemma_*` proof functions.
