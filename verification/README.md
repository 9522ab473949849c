# tiny_shop

The verified core of a small marketplace for digital goods, written in Verus.

- `src/` is the library. Every function in it carries a contract that Verus proves: the cart
  and order rules (quantities, totals, the units a checkout orders at fresh prices), product
  status transitions and the events they emit, the steps of a checkout submission, how the
  catalog projection applies each event, the SQL assembled for listings and full-text search, the outbox relay's decisions,
  password and session-token handling, cookies, JSON-LD, sitemap and the helpers of the
  storefront pages. Calls into outside crates (argon2, blake3, rand, uuid, serde_json,
  percent-encoding) sit behind small trusted wrappers whose contracts say what those crates
  promise.
- `app/` is the binary around it: SQLite access (sqlx), the Axum routes and maud pages, the
  relay task and the serializable forms of the library's types.
- `tests/` runs the library on concrete values.

Build and check with the Verus toolchain; the binary reads `TINY_SHOP_DATA_DIR`,
`TINY_SHOP_ADDR` and `TINY_SHOP_BASE_URL`, and the migrations of each context from
`migrations/<context>`.
