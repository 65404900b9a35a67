# codex-usage-proxy

Tracks what coding sessions use. Session logs are read as they grow, and their
titles, messages, tool calls and token counts are handed to a store. A proxy,
which does not forward requests yet, reports usage events, and these are added
up by day and model.

- `src/` is the library, in Verus. Every function says what it returns or
  changes, and the proofs are checked. `src/laws.rs` and `src/scan_laws.rs` hold
  what is true of whole logs and whole scans; other laws stand beside the
  functions that they are about.
- `tests/` runs the library on concrete values.
- `app/` is the program around the library: the command line, the settings, the
  database, the HTTP listener, and the reading of files.

Settings are read from the JSON file that `--config` names. To send the requests
of Codex through the proxy, add to `~/.codex/config.toml`:

```
model_provider = "openai-via-proxy"

[model_providers.openai-via-proxy]
name = "OpenAI via proxy"
base_url = "http://127.0.0.1:8787/v1"
env_key = "OPENAI_API_KEY"
wire_api = "responses"
```
