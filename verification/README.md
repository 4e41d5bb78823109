# snapmail

The logic of the SnapMail Holochain zome as a verified Verus library, with the
Holochain calls kept in a thin zome crate around it.

- `src/` — the library, verified by Verus:
  - `handle/` — the Handle entry, its validation rules (name length in bytes),
    the history and ping decisions.
  - `file/` — File, FileChunk and FileManifest entries, their validation rules,
    splitting a file into chunk versions and joining them back (with the proof
    that reading back what was written gives the original text).
  - `mail/entries/` — the mail entries (Mail, InMail, OutMail, PendingMail,
    PendingAck, acknowledgement entries) and mail states.
  - `mail/functions/` — the decisions of the zome functions: sending (a step
    function from state and event to next state and action), the inbox scans for
    incoming mails and acknowledgements, receipt bookkeeping, acknowledgement
    checks, mail listing.
  - `mail/receive.rs`, `protocol.rs`, `signal_protocol.rs` — direct messages and
    signals.
  - `hash.rs` — the SHA2-256 multihash in base58 that names file contents.
- `app/` — the zome: entry definitions, serde forms of the library types, and
  the zome functions that perform the Holochain calls and feed their results to
  the library.
- `tests/` — tests of the library on concrete values.
