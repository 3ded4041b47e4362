# hfb_auth

Authentication service for the horfimbor game, with its core verified by Verus.

- `src/`: the verified library. Event-sourced user, account and application
  models (the state each sequence of events builds and what each command
  decides), sessions and CSRF guards, redirection URLs, password hashing,
  login and registration, the authorization flow that hands an application a
  one-time token, checks it when the application presents it and prepares the
  claims of the token it receives (signing them is left to `app/`), the
  administration forms,
  and what the event consumers decide. Laws relating several operations stand
  in `user_laws.rs`, `model_laws.rs` and beside the functions they speak of.
  The accounts a user holds are kept per application in a vector of entries
  whose application keys are distinct (`links.rs`), rather than in a
  `HashMap` keyed by `ModelKey`: vstd specifies hash maps well only for keys
  whose hashing it knows, such as integers, and not for a struct key with
  derived `Eq` and `Hash`.
- `tests/`: tests of the library on concrete values.
- `app/`: the service around it: the command line, the rocket web server
  (with its CORS policy), the signing of tokens, the event-store repositories
  and consumers, and the serde forms of the library's types.
