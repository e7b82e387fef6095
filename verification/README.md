# ecu_relay

A central server and its ECU clients exchange protocol messages over mutually
authenticated HTTPS. The verified library in `src/` holds the relay's logic:

- `address`: reading a port from text, `host:port` and `https://host:port/`.
- `json`: the JSON string framing of messages (through serde_json).
- `message`: the message types.
- `node`: the server and client state and the requests they send.
- `serve`: which requests the server accepts (method, channel, content type,
  body), what it relays and answers, and what the main loop does with a
  relayed message.
- `tls`: the PEM certificate and identity of a node and its HTTPS client
  (rustls, only its own CA trusted, only `https`), through reqwest.

`app/` is the program around it: command line, TLS files, warp and reqwest.
