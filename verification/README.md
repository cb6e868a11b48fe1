# climacampo

The request-handling rules of the climacampo service (users, sessions,
producers and farms over MongoDB), verified with Verus.

- `src/` — the verified library: the documents (`models`), store identifiers
  (`oid`), the reads handed to the store (`query`), replies (`reply`, `status`), the `token` header (`header`), password
  hashing, login and session checks (`session`), store error replies
  (`error_db`), every route as a sequence of steps (`routes`), the older
  account service (`service`), what the writes make of a collection
  (`store`) and the laws that tie them together (`laws`).
- `app/` — the actix-web server: it reads requests, talks to MongoDB and runs
  the library's steps.
- `tests/` — tests of the library on concrete values.
