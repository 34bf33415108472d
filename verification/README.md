# hologram_live

The request handling of a local inference daemon, written and proved in Verus:
chat against a configured engine, the OpenAI- and Ollama-compatible HTTP
modules, the Ollama and weightc engines, and the daemon's own RPC.

- `src/` is the library. Every function states in its contract what it returns.
  Work that waits for something (a catalog, an engine, a stream) is written as
  steps: a value says what has to be done next, and a function takes the outcome
  to the next value.
- `app/` does what the steps ask for: HTTP, processes and JSON.
- `tests/` runs the library on concrete values.

Public proof functions named `law_*` state what holds across calls, such as that
a stream ends exactly once and that where bytes are cut does not change the
lines read from them.
