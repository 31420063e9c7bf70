# jwt_auth

The authentication core of a small axum web service, with its rules proved
correct against their specifications.

- `src/` is the verified library: error answers (`error`), the request
  context (`ctx`), token claims and their lifetime (`jwt_claims`), the clock
  (`clock`), the checks applied to authenticated requests (`mw::mw_auth`),
  password hashing and checking with Argon2id (`api::helpers::password`),
  the decisions of the login and sign-up endpoints (`api::routes_login`),
  reading and writing user items (`controllers::db::dynamo`), and the
  properties that tie these together (`laws`).
- `app/` is the service itself: routes, middleware, cookies, token encoding
  and decoding with `jsonwebtoken`, the DynamoDB client and the
  configuration file.
- `tests/` exercises the library on concrete values.
