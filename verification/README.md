# casino-backend

The rules and money of a small online casino, verified with Verus, and the
Actix Web service that serves them.

- `src/` is the verified library: cards and the three games (slots, Jacks or
  Better video poker, single-deck blackjack with doubles and one split), the
  house bank's loan terms, the credential and token rules, configuration, and
  what every endpoint decides before and after it talks to the database.
  Every function states what it returns in `requires`/`ensures`, and the
  laws that span functions (no card is created or destroyed at the blackjack
  table, a double or split stakes exactly one more bet, the slot machine
  returns 951,117 parts per million, an admin cannot lock themselves out, and
  so on) are proof functions.
- `tests/` runs the library on concrete values.
- `app/` is the server around it: HTTP handlers, the SQLite store, the
  clock and request extractors around token issuing and checking, the JSON
  forms of the library's types, and the `create-user` / `create-operator`
  commands.

Calls into Argon2, `jsonwebtoken`, `rand`, `rand_core` and a few `str`
functions are made from the library through small wrappers whose contracts
are trusted; their doc comments say what is claimed of each.
