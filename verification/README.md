# intent_api

Verified core of the intent API service, written in Verus.

- `src/` is the library. Every function in it is verified against its
  contract; the few calls into outside crates (HMAC-SHA256, UUID and time
  formatting, the current tracing span) go through small trusted wrappers
  whose contracts are documented where they are declared.
  - Webhook outbox: `webhook_outbox_repo` (records, the in-memory store
    specified over a map from id to record), `outbox_laws` (properties
    spanning several store operations), `webhook_outbox_worker` (one
    processing pass as a state machine), `webhook_outbox_dlq` (dead-letter
    queue decisions).
  - Webhook delivery: `webhook_delivery` (payloads, headers, failure-reason
    sanitisation), `webhook_hmac` (signing), `webhook_dispatcher` (what a
    record is delivered as and how a send outcome is classified).
  - Endpoints: `rebase_apply`, `rebase_preview`, `replay`,
    `trigger_reapproval` and `simulation` hold each endpoint's decisions as
    a flow that is told the outcome of each outside step and answers with
    the next one; `handler_common` has the shared tenant check;
    `jwt_auth` decides what happens to a request before its handler.
  - Presentation: `validation`, `compensation_view`, `trace_context`,
    and the API's bodies held as plain values in `types` and `api_types`.
- `tests/` exercises the library from outside.
- `app/` is the service shell: JSON forms of the library's values, the
  async stores (in memory and Postgres), webhook dispatch, the background
  worker, HTTP routes and middleware, tracing setup, and the runners that
  drive the endpoint flows against the backing services.
