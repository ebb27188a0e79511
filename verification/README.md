# caxton

The verified core of Caxton, a multi-agent message router and WebAssembly
agent runtime. Every function under `src/` carries a contract that Verus
proves; the laws that relate several functions stand there as public proof
functions (`lemma_*`).

## Layout

- `src/` — the library, verified by Verus:
  - `ids`, `time`, `bounds`, `text`, `base`, `table`, `errors`: identifiers,
    timestamps, bounded settings and texts, a keyed table, error types.
  - `message_router` (with `domain_types`): FIPA-ACL messages and the types
    that travel with them.
  - `config`, `conversation`, `registry`, `delivery`, `router`: the message
    router — configuration rules, conversations, the agent registry and
    capability index, delivery to local queues and remote nodes, admission and
    routing of messages, not-understood responses.
  - `security`, `resource_manager`, `sandbox`, `wasm_runtime`, `runtime`:
    the agent runtime — security policies, memory and fuel accounting, the
    per-agent sandbox, deployment and lifecycle of agents.
  - `performance` (with `message_routing`, `monitor`, `observability`,
    `instance_pool`, `memory_monitor`): batching in priority order, latency
    histograms and their percentiles, event ordering, instance pools,
    memory findings and leak detection.
  - `rest_api`, `storage`: request validation and answers of the management
    API; the SQL statements and the column mapping of the storage layer.
- `tests/` — tests of the library on concrete values.
- `app/` — the unverified shell: the HTTP server, tokio tasks and queues,
  clocks and sampling, floating-point reports, and copies of library types
  that carry serde derives.

Calls into outside crates (`uuid`, `serde_json`, `num_cpus`, `tokio`'s
channels, std's clock and UTF-8 decoding) stand behind small trusted wrappers
whose doc comments say what their contracts claim.
