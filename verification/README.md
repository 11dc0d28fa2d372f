# rmcp

The service stack of an MCP (Model Context Protocol) server and client, with
tower-style middleware, as a Verus library.

- `src/` is the verified library: the data model, the server's handshake and
  service-loop decisions, the adapters between handlers and tower-style
  services, the peer handle and its request middleware, raw message
  middleware, the client's requests and answers, and the byte counters of a
  transport. Each public function states what it returns in its contract, and
  the laws that span several functions are public proof functions.
- `app/` is the asynchronous runtime around it, on tokio: the transports, the
  loops that receive, send and wait, the tower `Service` implementations and
  the builders that hold trait objects. It performs what the library decides.
- `tests/` runs the library on concrete values.
