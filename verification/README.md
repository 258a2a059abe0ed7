# zeroclaw channels

Messaging channels for the LINE Messaging API and Lark (Feishu), written in
Verus: every function of the library states its behaviour in `requires` /
`ensures` and is proved against it.

Layout:

- `src/channels/json.rs` — a JSON model (numbers kept as their decimal
  text) and its builders; `text.rs` — character helpers and an unsigned
  decimal reader; `crypto.rs` — base64, HMAC-SHA256 and constant-time
  comparison, taken from their crates behind stated contracts.
- `src/channels/line/` — actions, flex components, message bodies of the
  push / reply requests, and the channel itself: allowlist, webhook
  signature check, API error reading, rate-limit bookkeeping and the retry
  decisions.
- `src/channels/line_webhook.rs` — webhook event types, event parsing and
  postback data.
- `src/channels/lark.rs`, `lark_types.rs` — the Lark channel: allowlist,
  token cache and the checks on the API's answers.
- `app/` — the HTTP side (reqwest, tokio, chrono), the retry loop driven by
  the library's decisions, `serde` copies of the wire types and the
  channel trait.
- `tests/` — the test suite.
