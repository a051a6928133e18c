# zapmomo

The configuration, model-directory probing and audio.cpp sidecar logic of the
ZapMomo voice companion, written in Verus with its contracts proved.

- `src/` — the verified library:
  - `asr/` — ASR model kinds and backends, settings and the parameter patch,
    configuration resolution from a directory listing, offline model
    configuration and transcript clean-up;
  - `audiocpp/` — the audio.cpp sidecar: model families, engine location,
    server configuration, the instance table (leases, release, reaping, CPU
    fallback), request shaping, the event stream and PCM decoding, error texts;
  - `tts/` — TTS kinds, backends and voice parameters;
  - `cli.rs`, `desktop.rs`, `audio.rs` — command-line and desktop-shell decisions;
  - `text.rs`, `listing.rs` — text, path and directory-listing helpers.
- `tests/` — tests of the library.
- `app/` — the host side: argument parsing, directory listings, the server
  processes and their HTTP, wav decoding, and the range checks of the
  real-valued ASR parameters (floating point stays out of the library).
