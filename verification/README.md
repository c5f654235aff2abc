# partiri

The command line of Partiri Cloud: it writes and checks `.partiri.jsonc`,
registers and deploys services, manages volumes, secrets and databases, helps
agents, and serves editors as a language server.

- `src/` is the library. What the tool decides on values other than floating
  point is here, written in Verus: what a request to the API looks like, what a response means, which
  checks a configuration passes, what is printed, asked and saved. Every
  function has a contract, and the properties that span functions stand as
  proof functions under a heading of their own at the end of each module.
- `app/` is the program around it: arguments, files, the network, prompts,
  threads, and the amounts and samples that are floating point.
- `tests/` run the library on concrete values.

The library calls a few functions of other crates (`serde_json`, `toml`,
`jsonc-parser`, `getrandom`). Each call stands behind one small function whose
doc comment says what is taken on trust of it.

| module | what it holds |
| --- | --- |
| `config`, `jsonc`, `schema` | the configuration file, its text, its schema |
| `validate`, `storage`, `secret`, `projects`, `listings`, `jobs` | commands on resources |
| `service` | the commands on one service |
| `databases` | managed databases |
| `client`, `error`, `json`, `output` | requests, responses, errors, reports |
| `auth`, `init`, `mcp`, `llm`, `cli` | signing in, the wizard, other tools, agents, dispatch |
| `lsp` | the language server |
| `text`, `seqs`, `random`, `common` | what the others share |
