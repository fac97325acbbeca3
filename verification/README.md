# kamu

The decisions behind a data management workspace, as a library whose behaviour is
stated in contracts and proved with Verus.

- `src/flow` — when flows run: triggers, throttling, batching, the time wheel, what a
  flow asks of a task executor, what its success starts downstream, the main loop of
  the service, how it reacts to messages, and what follows when a task has finished.
- `src/dataset` — what the metadata chain of a dataset adds up to, how an event becomes
  its next block, step by step, and what its metadata says at present.
- `src/ingest` — how new records are checked, given system columns and appended, and
  how a write goes step by step.
- `src/explore` — the containers of a notebook server and the token to reach it.
- `src/event_store.rs`, `src/object_store_builder_s3.rs`, `src/workspace_layout.rs`,
  `src/env_vars.rs`, `src/tail_command.rs` — smaller parts.
- `src/time.rs`, `src/ids.rs`, `src/text.rs`, `src/assoc.rs`, `src/metadata.rs`,
  `src/error.rs` — what the others are written in.

Functions that decide take the answers of the outside world as arguments and return
what to do next. `app` asks the questions and does it: databases, containers, files and
data frames.

Public proof functions named `law_...` state what holds of several functions taken
together. What is believed without proof is marked `external_body` or
`assume_specification`, with a comment on what is claimed: calls into `chrono`,
`regex`, `url` and `object_store`, and `Path::join` and `PathBuf::clone` of the
standard library.
