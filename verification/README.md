# nil

The core of a language server for the Nix language, written in Verus: executable Rust whose
contracts are proved.

- `src/` is the library. It keeps the state of the server and takes its decisions: which documents
  are opened, which diagnostics are calculated and which of them are still new enough to be
  published, what a changed configuration leads to, how the flake of the workspace is loaded step
  by step, and how failed requests are answered.
  - `server.rs` and `state.rs`: the server, and its state as a mathematical value.
  - `diagnostics.rs`, `config.rs`, `protocol.rs`, `error.rs`: the values it works on.
  - `edits.rs`: the content changes of one notification.
  - `flake_info.rs` and `flake_workspace.rs`: loading the workspace. Each answer from outside leads
    to the next state.
  - `laws.rs` and `flake_laws.rs`: what holds over any history of messages and answers.
  - `string_map.rs`: a map with string keys.
  - `external.rs`: what is believed of other crates and of std without proof.
- `app/` is the service around the library: the message router, the tasks and the files.
- `tests/` runs the library on concrete values.

Documents are identified by the text of their URL. Paths are kept as bytes, in the encoding of
`OsString::into_encoded_bytes`.
