# omywall

The decision-making core of the OMYWALL wallpaper engine for Wayland, written
in Verus: the functions in `src/` carry `requires`/`ensures` contracts that
Verus proves, and the laws that tie several functions together (what a key
undoes, what a frame gives back, which bookmarks a refresh keeps) stand there
as public proof functions.

A few small functions marked `#[verifier::external_body]` make calls into
std and `serde_json` (lower- and upper-casing, `char::is_alphanumeric`,
`Debug` quoting, JSON string quoting, `String::push`). Their contracts are
believed, not proved; each one's doc comment says what it claims.

Layout:

- `src/` — the verified library, one module per concern: the playback state
  machine (`engine`, `daemon`), the daemon's handling of each request and
  the slideshow (`requests`), the daemon socket framing (`ipc`), the
  terminal and settings-window decisions (`tui`, `panel`, `iced_gui`, `gui`),
  the Steam Workshop scraper and wallpaper scanner (`steam_workshop`,
  `workshop_api`, `steam_scanner`), tool-output parsers (`display`, `lwe`,
  `metrics`), settings rendering (`config`, `lua`, `json`, `json_text`), and
  path, asset and thumbnail bookkeeping (`paths`, `pathset`, `strset`,
  `assets`, `thumbs`).
- `tests/` — tests of the library on concrete values.
- `app/` — the command-line program around the library: argument handling,
  files, processes, the daemon (its socket server, renderer processes and
  slideshow timer, driven by `requests::daemon_step`) and the terminal
  interface. The graphical settings windows (egui and iced front-ends) are
  not part of this crate: their decisions (`panel`, `iced_gui`, `gui`) are in
  `src/`, but the windows themselves, which need those GUI toolkits, are
  not built here.
