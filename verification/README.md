# protocol_codegen

Generates the C side of a message protocol: model structures, request and
update messages, and their cJSON conversions, from a TOML description.

- `src/` is the verified library:
  - `protocol.rs`: the protocol description and the naming of messages;
  - `registry.rs`: the registry of known types, type lookup (`T[]` is an
    array of `T`) and the conversion of objects into structures;
  - `generators/`: the C text for declarations, parameters, initialisation,
    release and JSON conversion of fields, and the contexts the templates are
    filled with;
  - `text.rs`: string helpers.
- `app/` is the command-line program: it reads the TOML file, fills the
  templates found in `templates/`, runs `clang-format` and writes the files.
- `tests/` exercises the library on concrete protocols.
