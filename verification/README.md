# mondrian

The account side of the Mondrian task service, as a Verus-verified library
(`src/`) and the actix-web server around it (`app/`).

- `crypto` — Argon2id password hashes (through the `rust-argon2` crate) and
  checking a password against a stored hash.
- `users`, `tasks` — the stored records; preparing a submitted account for
  storage.
- `serializers` — the public view of an account, the superuser check, user
  ids and the claims of login tokens.
- `handlers`, `extractors` — which account a login names, who is let in, what
  a lookup or a registration answers, and who makes a request.
- `tokens` — issuing and checking the signed login tokens (JSON Web Tokens
  through `jsonwebtoken`), expiry included.
- `clock` — the system clock and the record times of `chrono`.
- `errors` — the service's errors, their texts and HTTP replies.
- `text` — decimal notation of integers.
- `laws` — properties that hold across these operations.

`app/` holds what the verifier does not see: the HTTP routes and extractors,
the PostgreSQL queries (diesel), the session cookie and the secrets read
from the environment.
