# ogurpchik

The verified core of a small RPC transport: the pre-RPC handshake, connection
admission, endpoint naming, service discovery bookkeeping, message
correlation inside a connection, buffer-pool accounting, and the error
vocabulary of every layer. Every function in `src/` carries a contract that
Verus proves; calls into the cryptography and Cap'n Proto crates stand
behind small trusted wrappers in `src/crypto.rs`, `src/rpc.rs` and
`src/pool.rs` whose contracts say what is assumed of them (for the Cap'n
Proto values, through names for what their public fields hold).

Layout:

- `src/wire.rs` — handshake packet and frame encodings, with round-trip laws.
- `src/handshake.rs` — the server and client handshake as step machines,
  and the laws of a whole exchange.
- `src/signed.rs` — signed-process attestation: key and signature formats,
  image check, PID-reuse guard.
- `src/gate.rs`, `src/worker.rs` — one-to-one / one-to-many admission and
  the accept loop's decisions.
- `src/endpoint.rs` — service-name validation, conventional endpoints,
  connect back-off.
- `src/discovery.rs`, `src/watch.rs`, `src/text.rs` — KV key layout,
  topology assembly and checks, the watchers' decisions, `reg.exe` output
  parsing.
- `src/session.rs` — envelopes, the pending-call table, inbound routing,
  round-robin and client start-up.
- `src/pool.rs` — pool decisions, wrapping counters, and the buffer pool kept
  in an `object_pool` stack.
- `src/rpc.rs` — Cap'n Proto exception mapping and reader limits.
- `src/node.rs` — the server and node builders.
- `app/` — the I/O around the core: TCP and unix-socket connections, the
  server's accept loops and the client's start-up, blocking handshake drivers, the KV
  stores, topology JSON, platform paths, attestation file reads and the
  floating-point pool average.
