# hserver

`hserver` is a configurable HTTP server adaptor built on top of `hyper` and `tower`. It is for
applications that want Hyper's connection engine without giving up control of the listener, the
accept loop, the source of streams or the spawning of tasks.

A `Server` is handed accepted transports together with the addresses of their peers, and decides
what each of them becomes:

- a plain stream becomes a `Connection`, or an `UpgradableConnection` where HTTP/1 upgrades are to be
  supported;
- a `Tls` transport becomes a Rustls handshake to be performed and a `TlsHandshake` (or an
  `UpgradableTlsHandshake`) that resolves into such a connection once the handshake has succeeded.

Each request of a connection carries a `ConnectionInfo` in its extensions, which holds the address
of the connection's peer.

## Layout

- `src/` is the library, verified with Verus. Each function states in its contract what it returns;
  `src/laws.rs` states what holds of all of them together; `src/outside.rs` holds everything that is
  believed of other crates without proof.
- `app/` holds the futures around the library: they perform the I/O of Tokio, Rustls and Hyper.
- `tests/handling.rs` tests what transports and handshakes become, and `tests/serving.rs` tests whole
  connections over in-memory streams.

## Shutdown

`app`'s connection futures must keep being polled to drive I/O. To begin a graceful shutdown, call
`graceful_shutdown` on the pinned connection; the future then runs on until in-flight work finishes.
