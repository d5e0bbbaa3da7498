# grok-search-rs

A web search service for clients that speak the Model Context Protocol over standard input
and output. It sends searches to a Grok backend, tries failed ones again within a window of
two minutes, and keeps an operator log that masks secrets.

The library in `src/` holds the service's logic, proved with Verus:

- `text`: trimming, lower-casing, searching and comparing texts as sequences of characters
- `json`, `json_text`: JSON values, their model, and their way to and from `serde_json`
- `model`, `adapters`: search requests, and the body that a search is sent as
- `providers`: when a failed search is tried again, and what is logged of it
- `mcp`: messages and lines of the protocol, the tools that are listed, the calls of them
- `logging`, `logging_laws`: redaction of debug events, lines of the operator log, captures

What the library claims of functions that it does not prove is stated beside their
declarations, in `text`, `json` and `json_text`. Public functions named `law_..` state what
holds across several functions.

`app/` runs the service: streams, files, tasks, timers, and the serialized forms of the types.
`tests/` runs the library on concrete values.
