# norisk_api

The client logic of the Copper (NoRisk) launcher API, with proved contracts.

- `src/request.rs`: `CopperApi` prepares every call of the API as a `Call`:
  method, URL under the production or staging base, bearer header, query
  parameters and JSON body, each stated exactly in its contract.
- `src/query.rs`: `QueryParams`, query parameters whose names never repeat,
  with the map laws of setting and merging parameters.
- `src/exchange.rs`: `Exchange`, the state machine that takes in what the
  transport reports (send failure, status, bodies, decoding) and decides what
  to read next and what the call returns, with its laws.
- `src/refresh.rs`: `TokenRefresh`, the secure token refresh: server ID
  request, session join with the issued ID, validation with that same ID,
  stopping at the first failure, with its laws over whole runs.
- `src/status.rs`, `src/text.rs`, `src/encode.rs`: status codes and their
  display text, decimal rendering, UUID and JSON string text.
- `src/model.rs`: the data types of the API and its error type.
- `app/`: the HTTP transport (reqwest) and the serde forms of the data types;
  it sends each prepared request and feeds the exchanges and the refresh.
