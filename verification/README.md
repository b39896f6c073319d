# cradle

The logic of the cradle music player as a Verus-verified library, with the
programs around it.

- `src/` — the verified library:
  - `track.rs`: validating track paths (from what the file system reported) and building tracks;
  - `metadata.rs`: track metadata and the provider interface;
  - `trackmanager.rs`: the queue of tracks between front ends and playback, with the laws of enqueueing;
  - `server.rs`, `serverstate.rs`: the state kept by the two enqueue servers;
  - `protocol.rs`: the request and response messages;
  - `playback.rs`: how the player reacts to its pipeline, and which audio device it uses;
  - `cli.rs`, `cli/`: the command line and its run modes.
- `tests/` — tests of the library.
- `app/` — the programs: argument parsing (clap), HTTP (axum, reqwest), the
  GStreamer pipeline, and file-system probing.
