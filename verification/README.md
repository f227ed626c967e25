# gogit

An AI-powered git companion: commit messages, pull-request descriptions,
code review, refactoring, history search, documentation, conflict
resolution, release notes, and a chat agent with tools.

- `src/` is the library, verified with Verus: the decisions and the text
  processing, from reading `git merge-tree` output and choosing which
  branches to analyse, to the endpoints, headers, and one-prompt request
  bodies for OpenRouter, Gemini, or Ollama, the retry rule for rate limits,
  the reading of OpenRouter replies and of streamed text, the agent's
  conversation, the tool catalog and the reading of each tool call's JSON
  arguments, and the Markdown rendering for the terminal. Where the library
  reads JSON or TOML it calls `serde_json` and `toml` themselves.
- `app/` is the `gogit` program around it: the command line, the terminal,
  files, processes, HTTP, the typed JSON of chat messages (Gemini and Ollama
  replies, an OpenRouter message), and the JSON text of requests and reports.
- `tests/` exercises the library on concrete values.
