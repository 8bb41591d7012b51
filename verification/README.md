# podkit server, verified core

podkit is a self-hosted PaaS on Podman. This crate is the verified core of
its API server, written in Verus; `app/` is the HTTP server binary around it.

`src/` (verified):

- `domain` – the models the server's rules read, and the deployment
  lifecycle (`Queued -> Building -> Deploying -> Running`, `Failed` before
  `Running`, and `Running -> Stopped`).
- `deploy_pipeline` – the deploy pipeline as a state machine: from the
  outcome of each outside step, the next step and what the deployment row
  records; proved laws include that the previous container is only retired
  once the new one passed its health check and runs, that any earlier
  failure is recorded and ends the run, and that a rollback never builds.
  Also the health-check window and rollback planning.
- `health_monitor` – the crash-restart bookkeeping of the background monitor.
- `routes` – CORS origins, and per route the payloads, the checks it makes
  before acting and in what order (`routes::guard` judges each answer), and
  its decisions (webhook secrets, stop/restart targets, ...).
- `config` – resolving the configuration from the environment.
- `auth`, `error`, `naming`, `text` – authentication decisions, errors and
  their HTTP statuses, image/container names, string helpers.

`app/` performs the I/O: database, git, container runtime, HTTP.
