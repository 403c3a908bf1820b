# goxlr_daemon

The logic of a daemon that drives GoXLR audio mixers, verified with Verus, and the program around it.

- `src/` is the library. Verus proves the contract of every function in it, but for the small functions
  around calls into other crates: their contracts are believed.
  - `device/` holds the mixer logic: faders, mutes, routes, effects, the sampler and the commands of
    clients. Its functions decide on a list of steps (`plan`), and say what state the steps lead to.
  - `profile`, `mic_profile`, `lighting`, `keys` are what a profile keeps, and how the hardware takes
    it.
  - `http_server`, `ipc_server`, `websocket`, `packet`, `json` decide what clients are answered.
  - `worker`, `events`, `audio`, `settings`, `files`, `firmware_file`, `firmware_update` are the state
    of the daemon, and what each event does to it.
  - `platform`, `tray`, `tts`, `tools` hold what belongs to one system or to the programs beside the
    daemon.
  - Those functions are marked `external_body`. The comment above each says what is believed of the
    call.
- `tests/` runs the library on concrete values.
- `app/` is the daemon itself: it reads and writes files, serves sockets, and performs the steps that
  the library decides on. Drivers for the hardware implement the traits in `app/hardware.rs`.
