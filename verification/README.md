# axum_ddd

A small to-do and user web service whose domain logic is verified with Verus.

- `src/` is the verified library: the entities (`Todo`, `User`), Argon2
  password hashing and checking, the decisions taken when an entity is
  updated (`usecase`), and the answer (status and body) that each user
  endpoint gives for each outcome (`presentation`). The repositories hold
  their connection pool there.
- `app/` is the program around it: configuration, the PostgreSQL queries, the
  async services that run those queries and hand the outcomes to the
  library, and the axum router.
- `tests/` runs the library on concrete values.
