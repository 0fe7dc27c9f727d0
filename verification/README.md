# opcua_session

The client side of the OPC UA session services: create, activate, close and
cancel.

`src/` is the library. It makes the requests, checks the responses, and keeps the
state of the secure channel that a session runs over. Every function in it has a
contract that Verus proves; the cryptography and the parsing of URLs come from the
`async-opcua` crates, behind functions whose contracts are stated and not proved.

- `create_session`, `activate_session`, `close_session`, `cancel`: the four services.
- `session`: a session, and how it uses the services.
- `channel`, `messages`, `endpoint`, `identity`, `types`, `error`, `security`,
  `request_builder`: the values that they work on.
- `crypto`, `url`: what the outside crates compute.
- `laws`: what holds of the services taken together.

The library sends nothing. Each service gives the request to send and takes what
came back. `app/` does the sending, reads the certificate store, and converts
between the values of the library and those of the wire.
