# snp

A tunnelling proxy. A client and a server keep one authenticated connection between
them, over QUIC or over TLS with multiplexed streams, and carry TCP connections over its
streams: forwarded ports and SOCKS5, in either direction.

`src/` is the library, verified with Verus. It holds the decisions of both sides as
functions from a state and an event to the next state and an action:

- `wire`, `text`, `address`: the requests that open a stream, and their bytes
- `socks5`, `forward`, `listener`, `reverse`: the life of a relayed connection
- `mux`: the driver of a multiplexed connection
- `client`, `setup`, `server`: connecting, reconnecting, and serving streams
- `tls`, `certificate`: TLS settings, and the certificate that the server is known by
- `config`: the configuration

`app/` is the program around it: the command line, the configuration file and the
sockets. `tests/` runs the library.
