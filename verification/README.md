# owasu

An adapter that receives alerts from Prometheus Alertmanager (`POST /api/v1/alert`)
and Uptime Kuma (`POST /api/v1/kuma`) and posts them as text messages to a
Seatalk group chat's webhook. A delivered alert is answered with
`{"apiVersion": "v1", "success": true}`.

## Layout

- `src/` is the library, verified with Verus: the request and configuration
  models, the text sent to Seatalk for each alert, the Seatalk webhook address,
  and the answers given for every outcome (delivery, Seatalk error, timeout,
  overload, refused JSON body).
- `app/` is the server around it: command line, configuration file, logging,
  the axum router and middleware, and the HTTP calls to Seatalk.
- `tests/` runs the library on concrete alerts.

## Configuration

```yaml
seatalk:
  chat_id: ""
server:
  port: 8080
  buffer: 10
  concurrency_limit: 100
  rate_limit: 100
  limiter_timeout: 10s
  timeout: 10s
```

Run with `owasu --config=<path>`; without the flag, `config/owasu.yaml` is read,
and a missing or unreadable file gives the default configuration.
