# tokimo-package-mail

An IMAP/SMTP mail client whose decisions are verified with Verus.

- `src/` — the verified library: account configuration and its validation,
  provider presets and detection from an address, message headers and
  address lists, the MIME part tree of a fetched message and the message
  made of it (bodies, attachments), message summaries in UID order, IMAP
  arguments (UID sets, search criteria, pages, incremental ranges), the
  bisection plan for failed UID-range fetches, IDLE timing, the message to
  send over SMTP, base64 and modified UTF-7 mailbox names. Calls into
  `mailparse`, `chrono`, `base64`, `lettre` and `utf7-imap` go through
  small trusted wrappers whose contracts name what those crates compute.
- `app/` — the asynchronous network side: TLS connections, IMAP commands
  and SMTP delivery, with serde forms of the data types.
- `tests/` — tests of the library on concrete values.
