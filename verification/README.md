# google_maps_connectrpc

The rules of the shared Google Maps Connect service, verified with Verus:

- `src/token_auth.rs`: the bearer-token layer. `TokenAuthLayer::from_list` parses
  an allow-list (tokens separated by commas, spaces, newlines or tabs, trimmed,
  blanks dropped); `TokenAuthService::screen` lets a request through exactly when
  its `Authorization` header reads `Bearer <token>` for a listed token, and
  otherwise answers with the Connect `unauthenticated` error (HTTP 401, JSON).
  The laws of the allow-list are proved here and in `src/token_list.rs`.
- `src/header.rs`, `src/rpc_error.rs`: header values as text (`http`) and Connect
  errors as status and JSON (`connectrpc`).
- `src/time_zone.rs`: the Time Zone RPC's request time (`chrono`) and answer.
- `src/responses.rs`: how the other RPCs shape their answers.
- `src/transport.rs`: how the Cloudflare Workers transport prepares requests and
  judges responses.

`app/` holds the runtime shell: the `tower` layer, service and future around the
library's decisions, the `chrono` value for the Time Zone RPC, and the
`worker::Fetch` calls of the transport.
