# voxtype-elevenlabs-adapter

A local compatibility server that lets Voxtype's OpenAI-style transcription
requests reach ElevenLabs Scribe, with its request handling and configuration
rules verified against their contracts.

- `src/` is the verified library:
  - `text` — Unicode white space, trimming, `str::replace`, white-space
    compaction, and `sanitize_error`, with the proof that an upstream error
    detail never shows the API key and is always compact.
  - `config` — environment settings, boolean switches, the key file location.
  - `state` — the adapter state (`AdapterState`), API key resolution, health.
  - `upload` — collecting the audio upload from multipart fields.
  - `transcribe` — the transcription request as a state machine: from
    Voxtype's upload to ElevenLabs' request and back to Voxtype's reply.
  - `serve` — the loopback-only bind rule and the health URL.
  - `keyfile` — the stored form of the key and the temporary file name.
- `app/main.rs` is the program: command line, HTTP server (axum), requests
  to ElevenLabs (reqwest), the key prompt and key file I/O. It drives the
  library's state machines and performs what they ask.
- `tests/` exercises the library on concrete values.
