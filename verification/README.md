# Rigel

A self-hostable chat server compatible with the Discord API, whose core
logic is a library verified with Verus.

## Layout

- `src/` — the verified library `rigel`:
  - `utils/snowflake.rs`: snowflake ids (layout, generation, decoding, the
    order of id strings);
  - `utils/token.rs`: signed authentication tokens (HMAC-SHA256 over
    URL-safe base64 parts);
  - `utils/text.rs`: trimming, splitting, joining, decimal notation;
  - `utils/constants*`: gateway opcodes, close codes, event names, model
    kinds, user and permission flags;
  - `state.rs`: the registry of live gateway connections and who an event
    reaches;
  - `ws/`: per-connection state, frame handling, heartbeat, `Identify` and
    the guilds of `READY`;
  - `routes/api/`: the decisions of the REST handlers (authentication,
    account registration and login, statements for profile and settings
    updates, message authorship, guild listings);
  - `services.rs`: what creating and joining a guild writes.
- `tests/` — tests of the library.
- `app/` — the server around the library: HTTP routes (axum), the gateway
  WebSocket, the MySQL database (sqlx), and the JSON shapes of answers.

The calls into `base64`, `hmac`/`sha2`, `bcrypt` and std's clock stand in the
library behind small wrappers whose contracts are trusted; everything else
in `src/` is proved.
