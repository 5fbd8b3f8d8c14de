# vmbus_server

The control plane of a vmbus server: it takes channel offers from devices, lets the guest open,
close and change the channels, and keeps track of the guest's connection.

- `src/` is the library, written and verified with Verus. It decides what each event takes; what
  has to be done outside is returned as effects and steps.
- `src/laws.rs` states what holds of the server over any series of events.
- `app/` runs the library inside a virtual machine monitor: it waits for events, carries out the
  effects, and hands back what came of them.
- `tests/` runs the library on concrete values.
