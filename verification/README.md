# gitclaw

An agent framework that lives in a git repository: an agent is a directory
with an `agent.yaml` manifest, identity files, skills, workflows, knowledge,
hooks and tools. The agent talks to a model provider (Anthropic, OpenAI chat
completions, Google Generative AI), runs tools, and keeps its memory and
session in git.

## Layout

- `src/` is the library, written in Verus. Each public function states its
  result in `requires` / `ensures` over mathematical models (`Seq`, `Map`,
  spec functions), and Verus proves it. It holds the document model shared by
  the codecs (`data`, `text`), the provider request builders and stream
  decoders (`anthropic`, `openai`, `google`, `sse`), the model and provider
  registries, the agent loop's decisions (`agent_loop`, `agent`), the prompt
  builders (`skills`, `workflows`, `agents`, `knowledge`, `examples`,
  `compliance`, `loader`), the configuration merge (`config`), the tool
  helpers (`tools`, `tool_loader`), hooks, audit lines, sessions and voice mode.
  Calls into `serde_json`, `serde_yaml`, `jsonschema` and `regex` go through a
  few small trusted wrappers whose contracts name what those crates compute.
- `app/` is the program around the library: the command line, the REPL, HTTP
  and WebSocket transport, file and process I/O, and the serde copies of the
  library's types. It hands the library plain values and acts on what comes
  back.
- `tests/` runs the library on concrete inputs, with the outside crates linked.

## Built-in models

`models::MODELS_JSON` holds the built-in registry: `anthropic` /
`sonnet-4-5-20250929` (`anthropic-messages`), `openai` / `gpt-4o-mini`
(`openai-completions`) and `google` / `gemini-2.5-flash`
(`google-generative-ai`). Other models are named in `agent.yaml` as
`provider:model` and must be one of these.
