# tavily-mcp-rs

A Model Context Protocol server for the Tavily search API, served over
standard input and output. It offers two tools, `tavily-search` and
`tavily-extract`.

The library under `src/` is verified with Verus:

- `json.rs`: a model of JSON documents and the readers the server uses
  (member lookup, strings, booleans, integers, arrays).
- `text.rs`: text helpers (blank lines, substring search, joining lines).
- `types.rs`: the request, answer and error types, with their models.
- `mcp.rs`: how a request line is routed and answered, and how an API answer
  is rendered as text.
- `tavily.rs`: the tool catalog and argument schemas, reading tool calls into
  API requests, preparing those requests, reading the API's status codes, and
  the laws that tie these together.

`app/` holds the program: reading standard input, JSON parsing and
serialisation with serde, the HTTP calls with reqwest, and the async loop.
