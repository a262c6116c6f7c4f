# rfs: a remote file service with a verified core

A UDP remote file service: a server exposes a directory, a terminal client
browses and edits its files. Invocations travel in a compact binary format
under one of three invocation semantics (maybe, at-least-once,
at-most-once).

## Layout

- `src/` is the library, written in Verus and verified:
  - `ser_de` – the wire format (labelled values, delimiters, run-length
    packing of zero bytes) and its round trips; packing round-trips when
    the packed form holds no `#n#` window but the markers packing wrote
    (bytes without `#` always do);
  - `remote`, `interfaces` – method signatures, framing and routing of
    invocations, the remote interfaces and their payloads, file updates;
  - `middleware` – the decisions of the transmission protocols: acks,
    the handshake transmitter and receiver, data segments, the duplicate
    filter of the dispatcher;
  - `fs`, `server` – virtual file system objects, path checks, callback
    registration;
  - `client` – the client application's state machine, its widgets, what
    they render, and the bookkeeping of the protocol tests.
- `app/` is the executable around it: sockets and timers, the server's file
  system access, the terminal, command-line arguments, and serde on top of
  the library's format.
- `tests/` exercises the library.
