# zeroai

The core library of an Android agent host: the scripting capability model
(manifests, capability inference from Rhai sources, grants, audit records,
workspace discovery, cron and event triggers), the ClawBoy agent that plays
Pokemon Red in an emulator (memory map, prompts, decision bridge, journal,
session rules, chat triggers), the Google Messages bridge (wire encryption,
pairing page, store rules), and the rules behind the FFI surface (events,
credentials, auth profiles, cron jobs, health, Discord archive, memory
maintenance, consolidation reports).

## Layout

- `src/` — the library, verified with Verus. Every public function states
  its result in `ensures` over spec functions and views; the laws that
  relate several functions are public proof functions (`lemma_*`). Calls
  into outside crates (`sha1`, `sha2`, `aes`/`ctr`/`hmac`, `rand_core`,
  `regex`, `rhai`, `url`, `qrcode`) go through small `external_body`
  wrappers whose doc comments say what is assumed of them.
- `tests/` — the test suite, run against the compiled library.
- `app/` — the unverified layer around the library: process-wide state,
  files, sockets, JSON, SQLite, the Rhai engine, the Game Boy emulator and
  the HTTP/WebSocket servers. It takes no decision of its own; it performs
  the work the library's functions decide on and converts values at the
  edges.

## Chat triggers

The start-game trigger recognises a start verb together with the product
name ("clawboy" / "claw boy"), in either order. Broader nouns such as
"game", "pokemon" or "game boy" made ordinary chat launch the emulator, so
they no longer trigger it. The tests `game_trigger_detected`,
`game_trigger_case_insensitive` and `game_trigger_with_whitespace` keep the
phrases once used to start a game ("play a game", "play pokemon", "start
the game") and expect them to be ignored now, while the phrases that name
ClawBoy still start it.
