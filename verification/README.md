# lnd

Runs a regtest [LND](https://github.com/lightningnetwork/lnd) process connected to a given
bitcoind, for use in integration tests.

- `src/` is the library, verified with Verus. It decides how an lnd process is launched,
  reached and terminated, and does no input or output: a `Launch` says what has to be done next,
  and takes what came of it. `src/laws.rs` states what holds of launches as a whole.
- `app/` is what does the work around it: it calls bitcoind, creates directories, asks for ports,
  spawns and signals processes, and connects clients.
- `tests/` exercises the library.

Features:

- lnd uses a temporary directory as its data directory, unless a persistent one is configured.
- Free ports are asked of the system; where the process exits early it is launched again, with
  newly asked ports, until it was spawned `attempts` times in all.
- The process is killed when the node goes out of scope.

The `lnd` executable is the one named by the `LND_EXEC` (or `LND_EXE`) environment variable, or
else the one in the `PATH`.
