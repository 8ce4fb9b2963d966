# sat_platform

The verified core of the SatPlatform debugging platform, in which a control
center and an on-site mobile client work on one debugging task through a cloud
service over WebSocket.

- `src/models`: the shared data model — roles, payloads and message types, task
  states with their pre-check items and test steps, and test templates.
- `src/cloud`: the cloud service's bookkeeping — client sessions, groups with one
  control center and one on-site client each, task states per group, the message
  router, the heartbeat monitor, the configuration, and the laws they keep.
- `src/control_center`, `src/onsite_mobile`: the two clients — their settings,
  the events they raise, their WebSocket clients as state machines, their
  commands, and the laws their clients keep.
- `src/client_link`: what both clients share about reading server messages and
  framing their own.
- `src/outside`: the trusted contact with `chrono`, `uuid`, `dashmap`,
  `serde_json`, `url` and std's `str::trim`.
- `app/`: the programs around the library — the cloud server on tokio and
  tokio-tungstenite, command-line runs of the two clients, settings files, and
  the JSON shapes of every message.
