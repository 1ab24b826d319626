# yo_esp

The verified core of a bare-metal audio streaming client for the `yo` voice
assistant on the ESP32-S3.

- `src/` — the library, checked by Verus:
  - `frame.rs`: byte layouts sent to and read from the server (handshake,
    microphone packets, push-to-talk markers and uploads, status bytes);
  - `mic.rs`: decoding I²S frames and cutting mono samples into chunks;
  - `pipe.rs`: the playback pipe and writes into it;
  - `capture.rs`, `speaker.rs`, `stream.rs`: the decisions of the microphone,
    speaker and network-playback tasks as state machines, with their laws.
- `app/` — the embassy tasks that drive those state machines on the device
  (sockets, I²S, timers, callbacks) and the floating-point signal helpers.
- `tests/` — tests of the library on concrete values.
