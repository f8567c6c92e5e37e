# project-balloon-api

The request validation, access rules and workflow decisions of the contest
platform's API, written in Verus and proved against their contracts.

- `src/` is the verified library. Each module holds the rules of one area:
  `contests` (listing, schedules, lifecycle, read scopes), `contest_problems`
  (assignments and problem order), `orchestration` (screen playlists, groups
  and their playback state machine), `presentation` (screens, live program,
  templates, broadcast tokens), `printing` (print requests, CUPS delivery)
  and `judge_dispatch` (outbox retries, result and dead-letter handling,
  broker topology). `text`, `digest`, `backoff`, `auth` and `error` are the
  shared pieces they build on.
- Calls into `sha2`, `hex`, `base64`, `getrandom`, `time`, `uuid` and
  `serde_json` stand behind small trusted wrappers whose contracts say what
  the crates document.
- `app/` is ordinary Rust around the library: request bodies as clients send
  them (with `serde`), error bodies, and clock and message-id conversions.
- `tests/` runs the library on concrete values.
