# TCE proxy

The proxy between a topos sequencer and a TCE node: it submits the certificates of the sequencer to
the TCE node and passes the certificates that the TCE node delivers to the sequencer.

- `src/` is the library, verified with Verus: the client of the TCE node and its commands, the tasks
  that serve it, the start and the loop of the proxy, and the laws of the whole (`src/laws.rs`).
  Certificates and stream positions are type parameters: the proxy passes them on and never looks
  into them.
- `src/channel.rs`, `src/replied.rs`, `src/target.rs` and `src/error.rs` hold what is taken on trust
  of tokio, tonic and hex.
- `app/` runs the library over tokio and the gRPC service of the TCE node. It takes the messages of
  that service from `topos_core`, and the commands and events of the application from
  `topos_sequencer_types`; both have to be provided beside this crate.
- `tests/` runs the library with real channels.
