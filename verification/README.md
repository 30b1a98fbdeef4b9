# sentineld

A system-metrics agent for Prometheus: it samples CPU, memory, disk and
uptime, exports them as gauges, serves `/metrics` and `/health`, and
hot-reloads `config.yml` (keeping the last valid configuration and counting
an error when a reload fails).

- `src/` is the verified library (Verus):
  - `config` — the configuration model, its documented defaults, per-family
    intervals and switches, the config path and start-up choice;
  - `snapshot`, `collector` — the snapshot and how one collection turns the
    system readings into it (disk sums, used space, memory in use), and the
    refresh schedule;
  - `exporter` — the export-loop schedule and the values each family sets;
  - `watcher` — the config-reload state machine and its laws;
  - `http` — the `/metrics` and `/health` replies (untyped metric families are refused before encoding).
- `app/` is the program around it: sysinfo sampling, tokio tasks, the
  notify watcher thread, YAML (de)serialisation, prometheus gauges and the
  actix-web server.
- `tests/` exercises the library on concrete values.
