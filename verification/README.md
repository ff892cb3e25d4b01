# internode

The request-building core of the Internode command-line client, verified
with Verus.

Each command of the client (`topics list`, `decisions link`, `intents
split`, `cypher run`, ...) comes down to one API request: a method, a path
with its query string, and a JSON body. `src/commands/` computes those
requests from the command's arguments, and each function's contract states
exactly which request it builds, or which `BAD_INPUT` error it refuses the
arguments with.

Layout:

- `src/text.rs`: Unicode white space, trimming, comma-separated lists.
- `src/number.rs`: decimal and hexadecimal renderings.
- `src/urlenc.rs`: form-urlencoding of query values (through the `url` crate).
- `src/digest.rs`: SHA-256 fingerprints (through the `sha2` crate).
- `src/json.rs`: request bodies; JSON plan checks (through `serde_json`).
- `src/request.rs`: requests, paths and query strings.
- `src/error.rs`: error kinds, their envelope codes and exit codes.
- `src/response.rs`: the follow-up hint read from a response.
- `src/commands/`: one module per command group.
- `app/`: the executable: argument parsing, configuration, prompts, HTTP,
  and the JSON output envelope.
