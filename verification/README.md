# context-password

Press a hotkey, pick a tagged vault item from a small popup, and its password, username or
one-time code is typed into the window you were in. Items come from a Bitwarden vault (through
the `bw` CLI) or a KeePass database, and only items tagged with an
`app://context-password/<position>[?os=...]` URI (or a `context-password` field on KeePass)
are shown.

## Layout

- `src/` is the library, verified with Verus. Each public function states what it returns in
  its contract; the laws that relate several functions are public proof functions.
  - `vault`: the tag grammar (`tag`), the popup entry and its stable sort (`entry`), failure
    summaries, and the worker-handle generations.
  - `bw`: the Bitwarden worker as a state machine (`job`), the `bw` invocations it asks for
    (`invocation`), failure classification, locating `bw`, and filtering a listing.
  - `keepass`: the KeePass worker as a state machine (`job`), filtering an unlocked vault,
    error classification, entry ids, and one-time codes computed with `totp-rs`.
  - `session`: the popup session (locked, unlocking, listing, delivering) and the list keys.
  - `controller`: the delivery sequence, the typing indicator, and the wait on exit.
  - `settings`, `config`: applying the settings screen to the configuration.
  - `ui`, `mac_ui`, `win`, `platform`: the toolkit-free parts of the front-ends: key names,
    the hotkey recorder, popup texts, placement on screen, UTF-16 typing chunks, permission
    checks.
  - `secret`, `text`: a zeroized secret string, and the text functions everything shares.
- `tests/` runs the library on concrete values.
- `app/` is the program around it: configuration files, the `bw` processes, the KeePass file,
  the worker threads, and a console front-end.
