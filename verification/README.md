# jotti

A verified library holding the logic of the JottiCP hosting control panel:
the host agent, the mail service, the MCP bridge, the command-line client and
the panel API. The functions under `src/` are verified by Verus against their
`requires`/`ensures` contracts; calls into outside crates (`regex`, `sha2`, `hex`,
`base64`, `base32`, `ed25519-dalek`, `tar`, `flate2`, `zip`, `argon2`,
`totp-rs`, `image`, `serde_json`, `rand`, `uuid`) sit behind small
trusted wrappers whose contracts name or describe what those crates return
(a wrapper whose answer rests on the clock, the TOTP check, states nothing).

- `src/text.rs` — text primitives (splitting, trimming, decimal numbers) with
  their specifications.
- `src/agent/` — port allocation, version checks, unit files, SQL, DNS
  records, metrics parsing, backups, and the operation journal (entries in
  order of creation, each under an id of its own).
- `src/mail/` — Postfix/Dovecot map edits, Sieve scripts, queue parsing.
- `src/mcp.rs`, `src/cli.rs` — JSON-RPC routing, tool dispatch, client helpers.
- `src/panel/` — request checks and plans of the panel API (logins and TOTP,
  sites and their clones, directory listings and archive extraction, access,
  databases, backups, imports, branding, settings, …).
- `app/` — a thin command-line front that does the I/O and calls the library.
- `tests/` — tests of the library on concrete values.
