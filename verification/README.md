# bitcoin_da_client

Client logic for Syscoin's BitcoinDA data-availability layer: storing blobs
through a Syscoin node, reading them back from the node or the PoDA cloud,
checking their availability and finality, and managing the wallet that pays
for them.

Layout:

- `src/` is the verified library. Each operation (`api.rs`) starts from the
  client configuration and returns a `Step`: either its result, or an
  `Action` to perform (a JSON-RPC call, a batch, a GET or a JSON POST) and a
  state to resume with the `Reply`. The contracts say, for every reply, what
  the next step is. `request.rs` says which HTTP request performs each
  action. `laws.rs` holds the properties that span operations and whole runs.
- `app/` sends those requests over HTTP (reqwest, tokio), converts between
  serde_json values and the library's JSON model, computes the blob base fee
  (floating point), and holds the demo program.
- `tests/` drives the operations with concrete replies.
