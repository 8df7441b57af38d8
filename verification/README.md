# eschool

A client of the e-schools.by school diary whose logic is verified with Verus.

- `src/` — the verified library:
  - `api/` — the diary API: request paths, the seven-step OAuth login as a
    state machine (`login.rs`), token renewal results, and the entities.
  - `features/` — the credential store, token renewal steps, the full data
    load as a state machine (`sync.rs`), week/quarter/year planning and marks
    (`diary.rs`), and new-mark detection.
  - `pages/` — what the diary, schedule, teachers, login and PIN screens show.
  - `network/`, `model.rs`, `i18n.rs`, `locale.rs` — the application's OAuth
    URLs and request paths, its item list, translations and language choice.
  - `text.rs`, `codec.rs` — verified string helpers, and the Base64,
    percent-encoding, regular-expression and lower-casing calls behind
    trusted wrappers.
- `tests/` — tests of the library on concrete values.
- `app/` — a command-line program around the library: HTTP with `reqwest`,
  JSON with `serde`, files for the store and the cache, mark averages.
