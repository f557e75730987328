# undertone

The logic of Undertone, a Linux audio mixer for Elgato Wave
microphones, written in Verus: parsers, request handling, the daemon's
state machine, routing rules, presets and device state, each function
proved against its contract. What talks to USB, ALSA, PipeWire and
SQLite stays in `app/`.

## Layout

- `src/` — the verified library:
  - `text.rs`: the string operations the parsers use (lines, trimming,
    words, prefix/suffix/substring tests, `u32` parsing, decimal
    printing), each specified as a spec function over `Seq<char>`;
  - `effects.rs`, `chain.rs`, `presets.rs`: the mic effect chain, its
    parameter tables (values in thousandths of their unit) and the
    built-in presets. An effect's parameters are a `Vec<(String, i32)>`
    with distinct names, standing for a name-to-value map;
  - `device_model.rs`, `device.rs`, `wavexlr.rs`, `alsa_fallback.rs`:
    device identities, Wave:3 / Wave XLR detection from the USB bus and
    the ALSA card list, the Wave XLR state blob, and reading `amixer`
    output;
  - `filter_chain.rs`: reading `pw-cli ls Node` listings;
  - `messages.rs`, `server.rs`, `client.rs`: deciding IPC requests and
    recognising a dead daemon connection;
  - `daemon_loop.rs`: the daemon's main loop as a state machine, from
    the daemon state and a graph event, command or outcome of outside
    work to the next state and the actions to perform;
  - `routing.rs`, `daemon.rs`: routing rules (matching an application,
    choosing its channel by priority, their stored pattern types,
    routing and unrouting an application) and node names;
  - `migrations.rs`: which schema migrations bring a store up to date.
- `tests/` — executable tests of the library.
- `app/` — the unverified side: USB transfers (`rusb`), `amixer`,
  `pw-cli` and `pactl` subprocesses, the SQLite store (`rusqlite`),
  the serde forms of the IPC messages, and the floating-point
  conversions between levels and their integer encodings.
