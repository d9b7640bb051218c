# ecom_api

The logic of a small e-commerce REST service (users, sessions, products, cart, wishlist),
verified with Verus.

- `src/` is the verified library. Each request handler is split into decision steps: a step
  takes what the request and the database gave and returns the next action (a lookup, a write,
  or the answer). The session tokens (JWT, HS256), password hashing (bcrypt), ObjectId text and
  the clock are reached through small trusted wrappers whose contracts are stated in their
  doc comments.
- `app/` is the actix-web server around it: routing, MongoDB access, the guard middleware's
  plumbing, and serde copies of the library's types.
- `tests/` runs the library against the real outside crates.

`serde_json` is used with its `preserve_order` feature: the session token's claims keep the
order sub, role, exp when they are encoded and when they are read back, and the contracts of
the token functions rely on that order.
