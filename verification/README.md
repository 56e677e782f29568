# agent

A self-hosted CI/CD agent: it receives GitHub push webhooks, builds the
pushed project in a container, checks the build output, deploys it to the
idle one of two slots (blue-green), switches traffic once the new container
runs, and serves the deployed projects through a reverse proxy.

- `src/` is the verified library (Verus). It holds the agent's decisions:
  workflow parsing (from the YAML text) and interpretation, build configuration and detection,
  build commands and output checks, the blue-green deployment state
  machine, the build queue, request routing, webhook handling (signature,
  matching projects, path filters), the sign-in whitelist, Discord
  messages, and the container maintenance rules.
- `app/` is the program around it: the HTTP server, the SQLite store,
  Docker, GitHub and Discord calls, and the background workers that carry
  out what the library decides.
- `tests/` exercises the library on concrete values.
