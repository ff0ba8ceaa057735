# plz

Describe a task in plain language and get a command ready for your OS and
shell: `plz find files larger than 100 MB`.

## Layout

- `src/` — the verified library, written in Verus. Every executable function
  carries a contract, and the laws the program relies on are proved as
  `lemma_*` proof functions next to the code they speak of:
  - `safety` — classifying commands as risky, rule by rule;
  - `prompt` — the system prompt, and reading the model's reply;
  - `cli` — the command-line grammar;
  - `ui` — the query editor, the picker and the full-screen mode as state
    machines;
  - `install`, `integration`, `exec` — the shell wrapper, its startup line and
    the protocol file;
  - `config`, `provider` — presets, key resolution, request and error texts;
  - `json` — JSON values as `serde_json` reads them, for error bodies;
  - `context`, `i18n`, `input`, `clipboard`, `winpath`, `actions`, `text`.
- `app/` — the program around the library: reading the terminal, drawing,
  files, processes, the HTTP exchange and the configuration file format.
- `tests/` — tests of the library on concrete values.
