# webserver_rs

An out-of-the-box web server built on salvo.

- `src/` is the library, verified with Verus: HTTP errors and how they are
  answered (`http_error`, `error_catch`, `status`), the JWT guard, tokens
  and expiry times (`authorization`), the paths of the `router!` forms and
  the CORS policy (`route`), streamed in-memory bodies and static files
  (`assets`), the database connection pool (`db_pool`, `db`), logging
  settings (`log`), the configuration (`config`) and the route layout of
  the server (`server`).
- `app/` is the salvo side: handlers and middleware, the macros, the
  configuration file, the logger, the database connections and the
  listener. It takes every decision from the library.
- `tests/` runs the library on concrete values.
