# clepsydra

The verified core of a monitoring backend for a set of clepsydrae (water
clocks): sensor readings arrive over MQTT, are stored, checked for alerts,
turned into hydraulic metrics and pushed to WebSocket clients.

- `src/` is the library, verified with Verus:
  - `alert`: alert kinds and levels and their codes;
  - `table`: a table keyed by clepsydra id (configurations, accumulated
    daily errors, last reading times);
  - `clock`: the integration step between successive readings of one
    clepsydra, read from the system clock;
  - `ingest`: the order of work for one sensor reading, as a step function
    driven by the caller;
  - `forward`: forwarding broadcast messages to one WebSocket client, as a
    step function driven by the caller;
  - `ids`: client ids for the MQTT session and WebSocket clients;
  - `response`: the envelope of the HTTP API's answers;
  - `settings`: service settings from the environment, with defaults.
- `tests/` exercises the library.
- `app/` is the server around it (HTTP routes, WebSocket forwarding, the
  serde copies of the records, the floating-point PID controller). Its
  `run` starts the server given an implementation of the `Services` trait,
  which stands for the storage, MQTT intake, WebSocket fan-out, hydraulic
  model and alert rules. No such implementation is part of this tree, so
  `main` reads and logs the settings and then stops with an error.
