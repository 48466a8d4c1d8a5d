# psocial3

A web service that lets the users of a company exchange WhatsApp messages
through Twilio, with form and JSON logins, session cookies holding HS256
tokens, and an administration area for companies and users.

- `src/` is the library, verified with Verus: reading the session cookie
  and the bearer header, issuing and checking tokens, the decisions of
  every handler and guard (written as steps that name the next database
  query or HTTP exchange and take its answer back), the JSON the service
  writes itself, and the data models. Calls into `jsonwebtoken`,
  `serde_json`, `uuid`, `chrono` and `base64` stand behind small trusted
  functions whose contracts say what those crates do.
- `app/` is the program around it: the `poem` server and its routes, the
  OpenAPI endpoints, the `sqlx` queries, the `reqwest` call to Twilio,
  logging, and the serde copies of the library's records.
- `tests/` runs the library on concrete values.
