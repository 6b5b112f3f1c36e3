# polling_backend

The rules of a polling service, verified with Verus.

- `src/` is the library: configuration defaults (`config`), the poll records
  (`models`), the replies of the endpoints (`reply`), the poll endpoints'
  decisions and the making of a new poll (`poll_service`), the state machines
  that run a vote (`vote_flow`) and a close or reset (`manage_flow`), the user
  lookup (`user_repository`, `user_config`) and the calls into `nanoid` and
  `chrono` (`ids`).
- `app/` is the actix-web server around it: it reads the environment, talks
  to the stores and the live-update broadcaster, and turns the library's
  replies into HTTP responses. The poll store, the broadcaster and the token
  check of the write routes are supplied by the embedding application
  (`app/collaborators.rs`).
- `tests/` runs the library on concrete values.
