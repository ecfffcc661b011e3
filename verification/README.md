# sonar

The decision-making core of Sonar, a push-to-talk dictation application,
written in Verus. The functions in `src/` carry contracts that Verus proves;
the few thin items that call the standard library or global-hotkey where Verus
has no specification (clock readings, Unicode case mapping, shortcut parsing)
state what those calls return and are trusted, not proved.

- `src/` — the verified library: transcript cleanup (filler removal, custom-word
  correction pass, white-space normalization), the paste transaction clock,
  download bookkeeping and resumption, settings validation and migration, the
  recording session and stream worker state machines, history paging, device
  listings, and what the pages show and cycle through.
- `app/` — ordinary Rust around it: the settings file (serde), the history
  database (SQLite), model downloads (reqwest/tokio), global-shortcut
  registration, and the floating-point similarity used to score corrections.
- `tests/` — tests of the library through its public interface.
