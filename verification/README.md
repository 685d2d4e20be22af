# aura

Aura is a local-first workspace assistant: projects, intentional captures,
decisions with provenance, a retention sweep that ages context for review,
sealed export and recovery archives, and a "Neural Cortex" that answers
voice or text requests from a deterministic floor, a local model or an
opted-in cloud model.

## Layout

- `src/` is the library, verified with Verus. Every executable function
  carries a `requires`/`ensures` contract over spec functions and views, and
  the laws of the library stand as public proof functions beside the code
  they are about:
  - `domain/`: the stored enums and records, and the error type;
  - `security/`: the sealed-value format, the workspace key vault, and
    passphrase-derived keys;
  - `db/`: migration planning and the checks that run before every write;
  - `application/`: sealing and opening archives, import validation, the
    workspace snapshot and the retention pass;
  - `cortex/`: the brain as a step function, the cloud and local chat
    requests and replies, the settings document, and the speech-to-text
    plan;
  - `text.rs`, `time.rs`, `ids.rs`, `bytes.rs`: text, instants, identifiers
    and byte helpers.
- Calls into outside crates (chacha20poly1305, argon2, sha2, hex, getrandom,
  chrono, uuid) go through small trusted wrappers in `security/crypto.rs`,
  `time.rs`, `ids.rs` and `text.rs`; each one's doc comment says what its
  contract claims of the outside function.
- `app/` is ordinary Rust around the library: SQLite storage, HTTP calls,
  files, JSON forms of the library's types, and the loops that perform the
  actions the library decides on.
- `tests/` runs the library on concrete values.
