# req_response_exporter

An exporter node that sends telemetry to the applications that request it. Payloads from the
pipeline go into a bounded first-in first-out cache. A client connects, says `GET`, receives one
item and answers `ACK <id>`; only then does the item leave the cache.

`src/` is the library, verified with [Verus](https://github.com/verus-lang/verus):

- `cache`: the cache, with its limits on items and bytes and its one item in flight, which is
  never dropped;
- `client`: one client's conversation, as steps from state and event to state and action;
- `exporter`: what becomes of each message of the pipeline, and when upstream is acknowledged;
- `config`: settings, their defaults, and errors;
- `payload`: payloads and the decoding of OTLP requests;
- `text`: the decimal numbers and the trimming that the protocol needs;
- `metrics`: what is counted;
- `crypto`: which rustls crypto provider a process hands over, and that it does so once;
- `laws`: what holds of all of these together.

`app/` is ordinary Rust around it: the TCP server, the pipeline loop, JSON configuration and the
state of the process. `tests/` holds the tests.
