# tortuga

A terminal HTTP endpoint monitor. The decision logic lives in a Verus-verified
library under `src/`; the program around it (`app/`) does the network, file
and terminal work.

- `src/state.rs`: endpoint status and labels, per-endpoint counters, the state
  table keyed by endpoint name, and the event log capped at 200 entries.
- `src/monitor.rs`: what an HTTP response code means, how one check updates the
  table and the log, and the laws that hold across checks.
- `src/alert.rs`: alert text and where an alert goes (webhook, Telegram).
- `src/config.rs`: configuration types, defaults and validation.
- `src/ui.rs`: dashboard row texts and colours, the visible events, quit keys.
- `src/text.rs`: decimal rendering of integers.
- `app/`: `main`, TOML/JSON (de)serialisation, the polling tasks, HTTP
  delivery of alerts and the ratatui dashboard.

A poll that times out leaves the endpoint unknown (drawn yellow) and counts as
a check that is not up. Every change of status is logged; an alert is sent
when an endpoint goes up or down, not when it times out.
