# nocodo

The logic of the nocodo command line tool and desktop client, written in Verus
with its behaviour stated as `requires` / `ensures` contracts and proved.

- `src/cli/`: project analysis (manifest reading, file counting, language
  tallies, recommendations, the text report), project naming and framework
  detection, manager requests and replies, AI session prompts and tool
  invocations, work history formatting, command line types.
- `src/desktop/`: connection and login state, favourites, the health monitor,
  API URLs, user and team filters, SSH key handling and fingerprints, file
  browsing, the work board, markdown blocks and the small texts of the UI.
- `src/models.rs`, `src/tools/`: request and response types of the agent
  tools, with their validation and example schemas.
- `src/text.rs`, `src/documents.rs`, `src/order.rs`: string helpers, TOML and
  JSON document trees, and a stable sort used by the lists above.
- `app/`: the command-line program around the library: argument parsing,
  file system walks, the socket and HTTP transport, printing. The desktop
  client's window (egui, eframe, tokio, russh) is not part of it; the
  desktop logic it would drive is the library's `desktop` module.
- `tests/`: the test suite, run against the compiled library.
