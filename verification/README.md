# pika_backup

The decisions of the Pika Backup user interface, written in Verus and proved
against their contracts: what the schedule page says about a backup
schedule, how the setup dialog moves between its pages, which settings the
archives of an existing repository suggest, how exclusion rules are edited,
how errors are worded, and the small parsers and text helpers these need.

Layout:

- `src/` — the verified library, one module per part of the interface
  (`schedule_status`, `setup_flow`, `transfer`, `exclude`, `paths`, `df`, …).
  Texts are kept as `i18n::Text` values and only turned into strings, through
  the locale's message catalog, when shown.
- `tests/` — tests of the library on concrete values.
- `app/` — the thin layer that reads files, runs the SFTP client, keeps the
  clock and shares the configuration, handing plain values to the library.

Outside crates called from the library: `gettext-rs` (translations),
`shell-words` (splitting command lines), `url` (SFTP addresses) and
`itertools` (the suggestions of settings); `arc-swap` is used by `app/`.
