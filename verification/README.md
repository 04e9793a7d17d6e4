# guru

The GURU open server publishes prompts, skills, tools, agents and canvas
packs, and runs a community submission pipeline. This crate is its logic,
written in Verus and proved against its contracts:

- `slug` — slug validation and the slug derived from a section name;
- `json` — JSON payloads as plain values, and field access;
- `review` — submission intake checks, personal-field guard, promotion of
  an approved payload into a catalog row, approval decisions;
- `master` — the arguments of every master-content write (creates, edits
  merged over the stored row, element lists);
- `auth` — refusals and the review-token check;
- `digest` — SHA-256/hex digests for tokens and tool code;
- `etag` — entry, list and manifest ETags, and `If-None-Match` matching;
- `masks` — the 21 built-in mask templates;
- `db` — connection-URL handling and the slug/version listing queries;
- `replies` — the plain-text replies of the write endpoints.

`app/` is the HTTP server around it (axum, sqlx/PostgreSQL, tokio): routing,
database access, disk access for pack media, and the `seed` and
`import-prompts` commands.
