# impulse_client_kit

A client kit for Leptos applications whose decision logic is verified with
Verus.

- `src/` is the verified library: class composition and the components'
  class tables, the WebSocket and WebTransport reconnection controllers, the
  back-gesture stack, calendar and date-picker arithmetic, command-palette
  matching and navigation, the one-time-code field, the number stepper,
  drag and drop, telemetry identity, theme selection, and the native
  palette tables. Every public function states what it returns in its
  contract, and the `law_*` proof functions state the properties that span
  several calls.
- `app/` is the unverified glue: the Leptos components, browser and
  platform I/O (history, sockets, storage, JNI), and the floating-point
  geometry of overlays, backoff delays and text areas.
- `tests/` exercise the library on concrete values.

Calls into `chrono` and `uuid` that the logic depends on sit behind small
trusted wrappers whose contracts restate what those crates document.
