# Password manager server

A password manager for a small group: every device has its own key with the
server, every device waits until the administrator confirms it, and every
password is encrypted both at rest and on its way.

- `src/` is the library. It decides everything: who may do what, what is stored,
  what is answered, what the admin console shows. Its functions carry contracts
  that Verus proves. `src/outside.rs` holds the calls into other crates, with
  what is taken for granted of them; `src/laws/` holds the properties that span
  several requests.
- `app/` is the program around it: the HTTP server, the database, the terminal.
  Called as `admin_cli` it is the admin console, called as `test_sender` it
  walks a device through a running server, and under any other name it serves.
- `tests/` runs the library.

A request is answered in steps. Each step of the library names what it needs
from the database, as a key, a list or a command; the program looks it up or
carries it out and hands the result to the next step.

The server reads `DATABASEENCRYPTSECRET` and `SOFTWARESECRET` (64 hexadecimal
digits each), `DATABASE_URL`, `BIND_ADDR`, `DB_POOL_SIZE`, `CORS_ORIGIN` and
`ADMIN_ALLOWED_SUBNET` from the environment. The console reads `BACKEND_URL`,
`ADMIN_KEY` and `EXPORT_DIR`.
