# Seidrum

An event-driven platform for personal agents: a small kernel, a message bus,
and plugins that take and give typed events. This crate holds the logic of the
kernel's services, of the gateway and of the plugins, verified with Verus.

## Layout

- `src/` is the verified library.
  - `text`, `json`, `table`, `order`, `time`, `duplicate`: the data the rest is
    made of, with their mathematical views.
  - `events`, `wire`: what travels on the bus, and how it is written as JSON.
  - `outside`: the calls into other crates, each with the contract that is taken
    on trust.
  - `kernel`: the registry of plugins, traces, the storage of plugins, agents and
    the run of their events, and the management of configuration files.
  - `gateway`: authentication, tokens, rate limits, the audit log, accounts, API
    keys, the WebSocket protocol and the REST replies.
  - `llm`: the translation to and from the formats of the model providers, and
    the rounds of a request with tool calls.
  - `plugins`: channels, extractors and tools.
- `app/` is the program around it: HTTP, the bus, files, processes.
- `tests/` runs the library from outside.

The functions of `src/` decide and compute; where something has to be asked,
sent, read or started in between, they return the next step and take what came
of it. Their contracts say exactly which step follows.
