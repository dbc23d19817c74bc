# dryfire_backend

The domain of a firearm-owner's backend (users and sessions, guns,
licenses, ammunition ledger, laws) as a library verified with Verus, and
the HTTP service around it.

- `src/` — the verified library. Every public function states its result
  in `ensures`, as far as it does not depend on the clock, randomness or
  an implementor of `Signer`/`FieldCipher`; laws relating several
  functions are public proof functions (`lemma_*`).
  - `text`, `base64`, `clock`: string primitives, base64url without
    padding, calendar dates, instants and UUIDs as plain values.
  - `errors`, `api_error`: domain errors, their messages, and how each is
    answered over HTTP.
  - `user`, `identity`, `account`, `auth`: users and their status, the
    validated login / e-mail / password types and tokens, and the
    decisions of registration, e-mail verification, login and bearer
    authentication.
  - `armory`, `ammo`, `license`, `law`: guns and the gun catalog, the ammo
    ledger, licenses and license types, laws and categories.
  - `sighting`, `audit`: input checks of the calculators; audit entries.
- `app/` — ordinary Rust: the axum routes and middleware, the
  asynchronous ports (hashing, token signing, mail, storage) and the
  flows that call them, and the floating-point ballistics and scope
  calculators.
- `tests/` — the library's tests.
