# Keyboard helpers, `dlfcn` and alert/connection state, verified

A Verus library holding the decision logic of a few pieces of an iPhone OS
emulator:

- `src/keyboard.rs`: the `KB*` native keyboard API as transitions of a
  keyboard state, returning the notifications, text-input switches and
  callback invocations the emulator performs; the `_KB*` stub fallback.
- `src/dlfcn.rs`: library handles and the `dlsym()` lookup order (symbol,
  then keyboard stub, then the no-op stub for optional hooks, else NULL) as a
  state machine whose lookups the emulator performs.
- `src/ui_alert_view.rs`, `src/ns_url_connection.rs`: host-side records of
  `UIAlertView` and `NSURLConnection` and the rules of their methods.
- `src/text.rs`: verified character-sequence helpers.

`app/` is the glue an emulator uses: it reads guest memory, sends messages
and calls guest code through a `Host` trait. `tests/` runs the library on
concrete values.
