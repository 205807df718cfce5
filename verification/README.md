# spotibot

The rules of a Discord bot that is a Spotify Connect device and plays media
requests, stated and proved in Verus.

## Layout

- `src/` is the verified library. It performs no I/O.
  - `player/` is the player: `state.rs` decides, in one function from state,
    input and time to effects; `model.rs` says what it decides; `laws.rs` says
    what holds of it whatever happens; `actor.rs` orders its effects.
  - `queue.rs` and `queue_store.rs` are the request queue and its rows.
  - `routing/` is the talk between the two bots: which bot answers, sealed
    frames, and the journal that carries each request out once.
  - `path.rs` joins paths the way Unix or Windows does; `runtime.rs` reads
    settings and lays out the state directory.
  - `setup.rs` is the setup wizard: its order, its texts and the env file it writes.
  - `soundboard/` is the clip catalogue.
  - `spotify/` is the Connect device and its session's lifecycle.
  - `users/` is the stored accounts and the encryption of their tokens.
  - `youtube/` is what is asked of the downloader and the decoder, and what
    their answers mean.
  - `bytes.rs`, `text.rs` and `uri.rs` serve the others.
- `app/` is ordinary Rust around it: files, sockets, processes, the database,
  librespot and Discord.
- `tests/` runs the library.

Functions named `law_...` state what the library promises as a whole. What is
taken on trust from other crates is marked `external_body` or
`assume_specification`, each with the outside function it speaks of.
