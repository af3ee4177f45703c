# DiKS TiTS — Distributed Key Signing Timestamp Server

A group of `n` servers runs a FROST distributed key generation
(`frost-dalek`) and then signs timestamps with `t` of them.

* `src/` — the verified library (Verus):
  * `state.rs` — the state of one server and its bookkeeping of the other
    servers' participants and secret shares;
  * `services.rs` — what the endpoints decide: `/init`, `/keygen_phase1`,
    `/keygen_phase2`, `/partial_signature`, `/pubkey`, `/commitment/{i}`;
  * `keygen.rs` — the two key generation rounds and the delivery
    bookkeeping (who has been sent what, retries), with their laws;
  * `timestamp.rs` — what a timestamp signs, who signs it, the aggregation of
    the partial signatures and the answer to the client;
  * `crypto.rs` — the trusted calls into `frost-dalek`, `sha2`, `hex` and
    `chrono`;
  * `encoding.rs` — the byte forms (compressed points) in which keys and
    commitments travel;
  * `address.rs`, `bytes.rs`, `types.rs` — small helpers and the data types.
* `tests/` — tests, among them a whole key generation and signature of a
  group of three servers in one process.
* `app/` — the programs around the library: the command line client, the
  demo client and the HTTP server.
