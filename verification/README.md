# handy

The platform-independent logic of the Handy speech-to-text apps, verified
with Verus.

- `src/` is the verified library:
  - `stt/`: the transcription host's line protocol: the model catalog
    (`catalog`), command parsing (`request`), the host state machine
    (`host`), streaming PCM sessions (`session`), WAV and resampling checks
    (`audio`) and the error texts (`error`).
  - `recording`: the mobile recording commands' decisions (one recording at
    a time, short clips skipped, lazy engine load).
  - `download`: download progress reporting.
  - `proxy`: validation of the persisted proxy URL and the WebView2 flags.
  - `startup`: crash-log records, non-ASCII path warnings, models-dir flag.
  - `platform`, `settings`, `retention`: shared types and platform stubs.
  - `text`: character helpers the others build on.
- `app/` is the program around it: the transcription host's stdin/stdout
  loop, downloads, WAV reading, resampling and inference; the mobile
  commands; desktop start-up; the async platform traits and the serde forms
  of the library's types.
- `tests/` exercises the library on concrete values.
