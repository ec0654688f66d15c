# client

The verified core of a command-line MLS chat client that talks to an agent
network over a websocket and to an MLS delivery service over HTTP.

- `src/session.rs`: the console session as a state machine: each line typed,
  the end of input, and the outcome of each client operation lead to the next
  state and a list of actions (forward to the agent network, write to the
  console, run a client operation). Its laws are proved there.
- `src/command.rs`: how a line is read as a command.
- `src/backend.rs`: the delivery-service requests (method and URL) and the
  meaning of its replies.
- `src/framing.rs`: how the client-list reply is read (TLS vector of byte
  strings), and where that reading meets a reserved length prefix, on which
  the TLS decoder would stop on a debug assertion.
- `src/console.rs`: the agent-network and long-polling reports.
- `src/text.rs`: string primitives and decimal rendering.
- `src/bindings.rs`: the trusted calls into `base64`, `url` and `tls_codec`.
- `app/`: the I/O around the library (HTTP, websocket, console, long polling),
  and the decoding of MLS values in replies.
