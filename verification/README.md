# lonis

An AI-native tool harness: tools emit structured blocks on stdout and
structured errors on stderr with narrow exit codes; external executables are
configured as tools with hard bounds (a timeout and output caps, which the
command line enforces when it runs them); providers expose many tools behind
one executable; blocks carry replay provenance that can be verified.

## Layout

- `src/` — the library, verified with Verus:
  - `ids` — namespaced tool ids and provider-name mangling;
  - `error` — the structured tool error and the exit-code table;
  - `capabilities` — output modes, tool self-description, derived capabilities;
  - `registry`, `stream`, `run` — the tool trait, the id-sorted registry, block
    streams and the decisions of a (streaming) run;
  - `builtins` — the harness's own `echo` and `version` tools;
  - `subprocess`, `provider` — bounded subprocess tool configuration and the
    provider surface (discovery arguments, tool construction, error shapes);
  - `replay` — replay verification of provenance hashes, with its laws;
  - `schemas` — the block-contract schema catalog, with its laws;
  - `payload` — naming of vertical payload kinds;
  - `input`, `mock` — call-input classification and parsing, and the mock
    provider's argument decisions;
  - `time` — the civil UTC date and time of a Unix timestamp;
  - `json`, `text`, `order` — `serde_json` wrappers and text helpers.
- `tests/` — tests run against the compiled library.
- `app/` — the `lonis` command line, process execution, serde wire forms,
  rendering and the mock provider host. It also holds the expansions of the
  two derives as plain functions over `syn` input; `app/` is a program, not
  a proc-macro crate, so they are not usable as `#[derive(..)]` from here.

Not present: block content hashing (blocks here are result blocks holding a
producer and an output), and running a subprocess tool end to end (stdout
to blocks, live streaming); the library holds the tool's configuration,
availability, discovery parsing and failure mapping.
