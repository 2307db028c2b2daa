# the_axum

An HTTP API server template whose request handling is a verified library.

`src/` is the library, checked by Verus:

- `error` — the API errors, their status codes, messages and headers, and the reply each
  error verbosity produces (`NoContent`, `StatusCode`, `Message`, `Type`, `Full`);
- `headers` — request headers with case-insensitive lookup;
- `extractor` — reading API keys, basic auth credentials, bearer tokens and JWT claims from
  a request, and mapping rejected query strings, paths and JSON bodies to API errors;
- `state` — the configured API keys, basic auth users and JWT settings;
- `middleware`, `route` — the decisions of the server's middleware and routes;
- `jwks` — when a cached JWK set is fetched again;
- `foreign` — the calls into `http`, `base64`, `jsonwebtoken` and std, with the contracts
  they are trusted to meet.

`app/` is the server itself: configuration, the axum router, the extractor and middleware
plumbing that hands requests to the library, and the JWK fetching.

`tests/` exercises the library on concrete requests.
