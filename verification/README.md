# sakaloka

The identity, access-control and domain logic of the Sakaloka platform,
written in Verus: the functions in `src/` carry contracts that the verifier
proves (those that only read the clock state nothing of the time they read),
and the laws the platform relies on are proof functions.

## Layout

- `src/permission.rs` — the permission catalogue, validation and
  normalisation of stored role permissions into JWT scopes, and the business
  permission catalogue.
- `src/rbac.rs`, `src/guard.rs` — roles, scopes, the role matrix and the scope
  guard's decision.
- `src/jwt.rs`, `src/tokens.rs`, `src/vault.rs`, `src/password.rs` — claim sets,
  HS256 signing and signature checking, the expiry, issuer and audience checks,
  refresh-token rotation, the service-token cache, scoped Qdrant keys and
  Argon2id hashing.
- `src/newtypes.rs`, `src/ids.rs`, `src/text.rs`, `src/error.rs` — validated
  input wrappers, UUID text, character helpers and error texts.
- `src/data.rs`, `src/queries.rs` — storage-layer logic: error texts, record
  IDs, sort whitelists, query plans and query texts.
- `src/sync.rs`, `src/push.rs`, `src/accounts.rs` — offline sync (pushed
  records and the push answer, timestamps, pull filters) and account records.
- `src/domain.rs`, `src/hal.rs`, `src/ai.rs` — shared domain types, the sensor
  wire frame and the embedding model's input checks.
- `app/` — process glue: environment, clock, reading and writing claims as
  JSON, the HTTP guard layer, async password hashing and wire formats.
- `tests/` — tests of the library on concrete values.
