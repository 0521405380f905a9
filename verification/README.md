# evermemos-rs

A long-term memory service for chat assistants: conversations are cut into
memory cells at topic boundaries, distilled by a language model into
episodes, foresight, event logs and user profiles, and searched again by
keyword, vector, hybrid, rank-fusion or multi-round (agentic) retrieval.

The decisions of the service form a library verified with Verus:

| module      | what it decides |
|-------------|-----------------|
| `text`      | character-level string helpers (trim, split, join, replace, numbers) |
| `table`     | a string-keyed table modelled as a `Map` |
| `tenant`    | tenant context and table suffixes |
| `retrieval` | query tokenisation, retrieval method and memory type parsing, de-duplication |
| `agentic`   | which tables a search reads, prompts and limits of the agentic rounds |
| `memory`    | conversation text, boundary cells, extraction plans, prompt templates, profile merging |
| `prompts`   | prompts of the memory extractors |
| `provider`  | chat messages and the JSON body of a model answer |
| `cassette`  | record-and-replay of model calls |
| `api`       | HTTP API validation, paging, metadata, statistics, access control |
| `config`    | settings and their defaults |
| `sdk`       | the HTTP client's request shaping and response unwrapping |
| `mcp`       | the JSON-RPC tool server's routing, tool list, arguments and answers |

`app/` is the `evermemos-mcp` program (stdin/stdout JSON-RPC, HTTP calls),
the HTTP client, the cassette file and provider wrappers, model calls of the
pipeline, and the floating-point scoring.
