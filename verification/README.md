# lumichat

The verified core of LumiChat, a small self-hosted chat server (SQLite,
WebSocket events, password accounts).

- `src/` is the library, with its specifications and proofs:
  - `error` — every refusal the server answers with, its message and status;
  - `text` — trimming, lowercasing, cutting and comparing text;
  - `secret` — Argon2 password hashes and random tokens;
  - `account` — usernames, registration, login, sessions, roles and the
    administrator's account changes;
  - `contacts` — friendships, friend requests and blocks, who may write to,
    call or see whom, friend lookups and their rate limit, invite links;
  - `chat` — channels, messages, edit and delete rights, search patterns,
    reading order and upload names;
  - `archive` — the administrator's message archive (filters and paging) and
    the clearing of uploaded files;
  - `live` — which account receives which live event, which call signals
    are relayed, and how a live connection reacts to what happens on it;
  - `laws` — properties that span several functions.
- `app/` is the HTTP and WebSocket server (axum, tokio, rusqlite). It holds the
  database schema and statements, file operations, JSON rendering and socket
  plumbing, and takes the decisions of each request from the library.
- `tests/` exercises the library on concrete values.
