# consul_api_sidecar

Carries DNS and TCP traffic between applications and the network over local sockets.

* `src/` is the verified library: the decisions of every task, as functions from state and event
  to next state and action, with their contracts and the laws that hold of them.
* `app/` is the program around it: sockets, channels, tasks, configuration files and JSON.
* `tests/` tries the library out on concrete values.

## The library

| Module | What it holds |
| --- | --- |
| `dns` | DNS messages and their framing on a stream, the two bridges that match answers to requests, the relays between them, the forwarders to a DNS server, and the services on top |
| `handshake` | frames, and the handshake of caller and listener that opens a channel |
| `service`, `service_history` | which services to launch and stop when the configuration changes, and what becomes of their tasks over a whole run |
| `config` | the configurations of agent and sidecar, and when they are loaded |
| `client`, `server`, `meta` | a client that keeps a session with a server, the server's sessions, and what they tell each other |
| `tcp` | TCP endpoints, copying between streams, and the sessions of a TCP service |
| `task` | the handles of a task that runs in the background |
| `pending`, `string_map`, `sessions` | requests that wait for their answer, maps by name, and telling finished sessions from the others |
| `testing` | connections within one process, and a search for a free port |
| `buffer`, `responder`, `url_parts`, `random`, `text` | what the library takes from `bytes`, `futures`, `url`, `rand` and std, and what it claims of it |
| `net` | plain values for addresses and I/O errors |
