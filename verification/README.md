# artycon_overlay

Verified core of the 11e / ArtyCon desktop overlay client.

- `src/` — the library, checked by Verus:
  - `text` — `str` ↔ `Vec<char>`, lowercase hex, decimal rendering, the `i64` grammar.
  - `json` — the `serde_json` values the library reads (object entries, parsing, strings).
  - `api::form` — form-urlencoding of single values (through the `url` crate).
  - `api::auth` — the OAuth loopback fragment parser, the `/auth/start` URL and
    the judgement of its answer, loopback routing, user-facing error wording.
  - `api::client` — API errors, error responses, the request / refresh decisions, the clock.
  - `api::crypto` — token-at-rest encryption (HKDF-SHA256 key, AES-256-GCM, base64 blob);
    `encrypt` is proved to produce a blob that `decrypt` turns back into the plaintext.
  - `api::tokens` — the token cache and its encrypted settings field.
  - `api::sse` — the event-stream reconnection policy (backoff 1 s doubling to 30 s).
  - `content`, `settings` — lexicon selection, settings defaults and the JSON merge of patches.
- `app/` — the Tauri program around it: windows, tray, hotkeys, HTTP, the
  loopback server, the event stream, files and serde copies of the wire types.
- `tests/` — executable tests of the library.
