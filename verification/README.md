# Nexus Runtime

A sandboxed edge runtime for WebAssembly components, verified with Verus. It takes an HTTP-like
request, hands it to a plugin that runs in a store of its own, held to a budget of fuel, memory and
time, and takes the plugin's response back.

`src/` is the library. Its own logic is verified. What it calls of `wasmtime`, `wasmtime-wasi`,
`bytes` and the standard library is not: the contracts of those calls are believed, and the doc
comment of each says what it claims.

| Module | What it holds |
| --- | --- |
| `runtime` | the configuration, the runtime, isolates, and the store that an invocation starts with |
| `host` | the engine, compiled plugins, stores, WASI contexts and resource tables |
| `invocation` | one invocation as a state machine: actions for the driver, events from it |
| `error` | the ways in which things fail, and the message for each |
| `model`, `http_types` | requests and responses, on the host's side and on the component boundary |
| `host_log` | the log that a plugin writes to |
| `plugins` | what `hello-world`, `http-echo` and `telegram-bot` answer |
| `cli` | what the demonstration sends and prints |
| `json` | the text of a JSON string literal |
| `text` | numerals, prefixes and UTF-8 |

Functions whose names begin with `law_` state what holds of the library as a whole.

`app/` is the program around it: the command line, the driver of an invocation, WASI, and the JSON
of the Telegram webhook.

## Budget of an invocation

| Field | Value |
| --- | --- |
| `fuel_per_request` | `250_000` |
| `max_memory_bytes` | 8 MiB |
| `max_instances` | 4 |
| `max_tables` | 8 |
| `max_memories` | 4 |
| `execution_timeout` | 50 ms |
