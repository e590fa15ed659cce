# pim

Services of the PIM platform: an HTTP API gateway in front of Zitadel, an
authentication service issuing JWTs, a user service backed by the Zitadel
user API, and a client for the Zitadel Management API.

- `src/` is the library, verified with Verus: configuration values and their
  defaults, feature flags, request validation, the mapping of upstream
  statuses to errors, pagination over list endpoints, request planning for
  the Management API, JWT claims and token issuing, and the decisions taken
  by the telemetry middlewares. Calls into `uuid`, `url`, `chrono`,
  `jsonwebtoken` and `reqwest` sit behind small trusted wrappers whose
  contracts are stated next to them.
- `app/` holds what Verus does not see: loading configuration files and
  environment variables, HTTP and gRPC plumbing (actix-web, hyper, tower),
  JSON (de)serialization, token decoding and the Prometheus exporter.
- `tests/` exercises the library with concrete values.
