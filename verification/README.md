# hanzo-tunnel

Cloud tunnel client for Hanzo apps: register, stream, and remote-control local
instances from `app.hanzo.bot`.

- `src/` is the library, verified with Verus. It holds the rules of the tunnel:
  how frames are written and read, what to do about each event of a connection
  to the relay or to the bot gateway, how long to pause before a reconnection,
  how commands are dispatched, and which terminal sessions there are.
- `app/` carries the rules out over WebSockets, processes and channels.
- `tests/` holds the tests of the library.

## Layout of the library

| module | what it holds |
| --- | --- |
| `protocol` | the frames of the tunnel |
| `tunnel` | errors, configuration, registration, responses |
| `transport` | dialling, the connection loop, reconnection with backoff |
| `gateway` | frames, handshake and connection loop of the bot gateway |
| `commands` | dispatching commands, and the results of carrying them out |
| `terminal` | terminal sessions |
| `registry`, `expose`, `auth`, `discovery` | instances, exposed services, tokens, mDNS |
| `json`, `members`, `wire` | JSON values, what their texts list, records |
| `table`, `text`, `timing`, `ident` | tables, texts, spans of time, IDs |

JSON text is read and written by `serde_json`, identifiers come from `uuid`,
URLs and header values are judged by `tungstenite` and `http`, and service
descriptions are made by `mdns_sd`. What the library takes from these is stated
at the functions that call them.
