# protocol_executor

A protocol executor (HTTP, WebSocket) whose requests pass through an ordered
chain of middlewares: built-in ones (logger, validator, metrics, single-step
transfer) and external programs that exchange JSON over standard input and
output.

Layout:

- `src/` is the verified library. `strmap` is the text-keyed map used for
  metadata and settings; `executor` holds the context, results, the middleware
  chain (`executor::base`, kept in ascending order) and the modes;
  `middleware` holds the built-in middlewares, the external-program protocol
  and the registry; `config` the configuration and its default chains;
  `formatter` the response formatter program's logic. `clock`, `ids`,
  `encoding` and `yaml` hold the calls into `chrono`, `uuid`, `base64` and
  `serde_yaml`.
- `app/` is the command-line program: argument parsing, reading files,
  starting external programs, and the network requests.
- `tests/` exercises the library.
