# openagentmail

A typed client library for the OpenAgentMail e-mail API, verified with Verus.

- `src/` — the verified library: data types and request builders
  (`types.rs`), a header map without duplicate names (`headers.rs`), client
  settings, URLs, authentication header and query parameters (`client.rs`),
  the request that each resource operation makes (`resources/`), the mapping
  of error responses to errors (`error.rs`), the decisions of iterating over
  a paginated listing (`pagination.rs`), and text helpers (`text.rs`).
- `app/` — the I/O around it: performing the described requests with
  `reqwest`, the JSON forms of the types (`serde`), the error type with
  messages (`thiserror`), and a `futures::Stream` over listings.
- `tests/` — tests of the library on concrete values.
