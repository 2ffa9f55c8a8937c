# sexp_proto_tokio

Pipelined request/response messaging with s-expression framing.

- `src/` — the verified library (Verus):
  - `host.rs`: the request host as a state machine (`Host::step`), its handle,
    and the exact transition (`spec_step`);
  - `laws.rs`: properties of whole host runs (requests answered once, in
    order; the service called once per request, in order; at most one in
    flight; every action's outcome is an expected event);
  - `mpsc.rs`: the channel ends the host reads from (over `std::sync::mpsc`);
  - `sexp_proto.rs`: frames and their bytes on the wire;
  - `errors.rs`, `demo.rs`.
- `app/` — the network side (codec, client, server, the future that drives a
  host, example programs), in plain Rust.
- `tests/` — tests of the library.
