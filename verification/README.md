# acp_provider

A provider of conversations that lets an agent do the work and talks to it in the Agent Client
Protocol. The library decides; what it decides is stated in contracts and proved by Verus. What
needs a process, a socket or a clock is left to the program around it.

- `src/` is the library.
  - `provider` keeps the sessions and turns calls into requests and replies into results.
  - `stream` runs one turn of a conversation; `message` makes prompts and questions.
  - `client_loop` serves the requests at the agent's side; `update` reads what the agent sends
    by itself; `process` says how the agent is started.
  - `session`, `servers`, `mode`, `request`, `protocol`, `json`, `text` and `deep` hold the data
    and what is read off it.
  - `laws` states what holds across these modules.
- `app/` connects the library to processes, byte streams and channels.
- `tests/` runs the library on examples.

A method that needs an answer from the agent comes in two halves. The first gives the request,
the second takes what became of it. A turn is a chain of values, each of which takes one reply
and gives the next, so that the steps can only be taken in order.
