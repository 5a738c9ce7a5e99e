# vss_bridge

Body-controller features of a vehicle, as verified state machines.

The library in `src/` takes signal values and the time and answers with effects:
what to publish, which actuators to claim or release, which lock commands to
request. It does no I/O. `app/` runs it on a signal bus with tokio.

- `arbiter/` decides who gets an actuator: claim and release with priorities and
  physical gates per domain, and a serialized queue for the central lock.
- `features/` holds one module per feature, from lighting to passive entry. Each
  describes its state, what every event leads to, and the laws that hold of it.
- `config.rs` has the calibration tiers and the dealer parameters.
- `signal_bus.rs`, `ipc_message.rs`, `zone.rs`, `clock.rs` and `path_map.rs` are
  what the rest is built on.

Times are milliseconds on a monotonic clock.

Public proof functions named `law_…` state what holds across calls and across
modules: that the bus shows what the claims resolve to, that a crash unlock comes
through, that every feature asks only for what the arbiters let it have, and so on.
