# simplerpcrs

A small RPC protocol between peers over TCP: a peer offers methods and events,
calls the methods of other peers and subscribes to their events.

- `src/` is the verified library (Verus): the packet model (`packets`), peer
  addresses and peer sets (`peer`), the application state and how every
  operation and every incoming packet changes it (`application`), the retry
  counter used while waiting for a peer (`application/retry`), and the laws
  that relate these operations (`laws`).
- `app/` is the runtime around it: tokio sockets, channels and tasks, the
  MessagePack encoding of packets, logging, and the user's callbacks.
- `tests/` runs the library on concrete values.
