# thinwire_core

The frontend-independent core of a small multi-protocol messenger, written and
proved in Verus. A frontend sends an `Intent`, hands over the adapter events
that arrived, and redraws from the view. The core owns the state, the secret
store, and the settings. It does no I/O: each call says in its `Effects` what a
host does next.

## Layout

- `src/app_core.rs`: the core, its intents, its effects, and its shutdown.
- `src/state.rs`, `src/state/`: the state of the shell. `model.rs` says what
  each operation does, the other files implement it, `laws.rs` and
  `soundness.rs` state what holds over several calls and of every state.
- `src/sends.rs`: sends and retries in flight, one per chat.
- `src/secrets.rs`, `src/keychain.rs`, `src/flush.rs`: the memory-first secret
  store, the attach of the OS keychain, and its writes.
- `src/settings.rs`, `src/theme.rs`: the settings file and the light or dark
  preference.
- `src/notify.rs`, `src/notifier.rs`: which message notifies, and what the OS
  shows.
- `src/demo.rs`, `src/stage.rs`: demo scenarios with invented data, and how they
  are played.
- `src/signal.rs`, `src/clock.rs`: the change signal (tokio) and the clock of a
  view (chrono).
- `src/text.rs`, `src/keyed.rs`, `src/lists.rs`: texts, maps, and lists.
- `app/`: a headless host. It runs the adapters of the demo, the keychain, and
  the settings file. A frontend with a window also starts its notification
  thread.
- `tests/`: runs of the compiled library.

Times are milliseconds of a steady clock that the host passes in. What a build
contains is a plain `Build` value.
