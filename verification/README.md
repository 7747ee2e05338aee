# claans_api

The rules of the Claans web service as a verified library, and the service
around it.

- `src/` is the library, verified with Verus: the database encodings of dice,
  task kinds and the fixed claans; checked e-mail addresses; the order in which
  claans are listed; the answers of the record handlers; the confirmation token
  and e-mail of a registration; the recipients of a published e-mail; and the
  HTTP status of each failure.
- `app/` is the service: the actix-web server for registration, confirmation
  and publishing, the Rocket server for the records, PostgreSQL access through
  sqlx and Diesel, and the e-mail delivery client.
- `tests/` runs the library on concrete values.
