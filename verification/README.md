# maxobot

A client library for the MAX messenger Bot API and its Botron channel
adapter, written in Verus: the request planning, validation, redaction,
retry and rate-limit decisions, and update mapping are executable Rust whose
behaviour is stated in `requires` / `ensures` contracts and proved.

## Layout

- `src/` — the verified library. Each module holds its data types, the spec
  functions that model them, and the executable functions proved against
  those models. `src/laws.rs` states properties that span several functions
  as public proof functions.
- `tests/` — tests that run the compiled library on concrete values.
- `app/` — ordinary Rust around the library: the async HTTP client over
  `reqwest`, the retry and rate-limit loops (which sleep and read the clock),
  serde copies of the library's types, and the adapter's action executor.

Calls into `http`, `serde_json`, `url` and `uuid` stand in `src/` behind small trusted
wrappers, each with a doc comment that says what its contract claims of the
outside function.
