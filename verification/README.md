# network_shim

The verified core of a machine that stands in for an extruder (version 2) on a
control server by talking HTTP to a separate shim server: it forwards mutation
requests and polls live values.

- `src/http.rs` — URL splitting, request framing (with `Content-Length` in decimal),
  and body extraction from responses.
- `src/identity.rs` — machine identities and the laser check.
- `src/mode.rs` — extruder modes, inferred from live values or named in requests.
- `src/mutation.rs` — which command a mutation request carries, by key priority.
- `src/shim_state.rs` — the discrete state of the shim as exact transitions, with
  laws over them (`law_*`).
- `src/timing.rs` — interval checks on a monotonic nanosecond clock and the
  live-value throttle.
- `src/text.rs` — character-level helpers on strings.

`app/` holds what Verus does not check: sockets, threads and channels, JSON
decoding, and the floating-point pressure controller.
