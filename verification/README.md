# aiecho

A zero-configuration discovery mechanism for AI services on a local network.
A service's discovery agent answers UDP broadcast requests on port 53535 and
announces itself when it goes online or offline; a scanner broadcasts a request
and collects the answers. Every message is `COMMAND\nJSON_PAYLOAD`, UTF-8
encoded.

## Layout

- `src/` — the library, verified with Verus:
  - `text.rs`: whitespace trimming, decimal rendering, UTF-8 sizing;
  - `json.rs`: the JSON values that payloads and manifests carry, and their
    field accessors;
  - `protocol.rs`: framing and splitting messages, the payloads of the four
    commands, and the service records read from them, with the round-trip laws;
  - `config.rs`: service configurations and `.echo` files;
  - `server.rs`: what an agent answers and announces;
  - `scanner.rs`: what a scanner keeps while it collects answers;
  - `discoverer.rs`: which `.echo` files register a service.
- `app/` — the command-line program: sockets, files, the clock, the JSON codec
  (serde_json) and the CLI.
- `tests/` — tests of the library.
