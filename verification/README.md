# upenv_api

The request logic of the UpEnv API, verified with Verus.

- `src/` is the library: bearer-token extraction (`auth`), the Supabase
  requests and what their replies come to (`supabase`), the endpoint paths,
  inserted rows and input checks (`routes`), the backup-fork workflow as a
  state machine (`backup`), the CORS origin list and other settings (`cors`,
  `config`), and the text, identifier and `http` facts they rest on (`text`,
  `ids`, `http_values`).
- `app/` is the Axum server around it: configuration from the environment,
  routing, the authentication middleware, sending requests with `reqwest`,
  and the JSON forms of the records.
