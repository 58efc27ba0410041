# dkms-wasm

Browser bindings for KERI identifiers and ACDC credential verification.

- `src/` is the verified library (Verus): error messages, credential
  status, reading CESR attestations, windowing of key event logs, watcher
  endpoints, the retry schedule of watcher queries, preparation of
  inception events, and the credential verification flow as a state
  machine that the bindings drive event by event. `src/laws.rs` states the
  properties that hold across calls.
- `app/` is the wasm-bindgen surface: the `JsController` and `JsIdentifier`
  classes, HTTP requests to watchers, timers, and the IndexedDB store
  (`app/database`, not part of this tree).
- `tests/` exercises the library on concrete inputs.
