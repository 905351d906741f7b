# database_common_lib

Support code for small actix-web services backed by MySQL.

- `src/` is the verified library:
  - `numbers` — decimal rendering and parsing of `u16` (with the round-trip law);
  - `database_connection` — connection settings resolved from a base
    configuration and environment overrides, the debug-build credential check,
    the write-once database name and the settings a pool is opened with;
  - `http_error` — error kinds, their HTTP status, message and JSON body;
  - `actix_extension` — which embedded file answers a request and with which
    media type, the server's bind address and the JSON answer to a bad payload;
  - `json` — JSON string literals through serde_json.
- `app/` holds the unverified code: the actix-web server and handlers,
  environment and network reads, the process-wide database name and the sqlx
  pool. It turns the library's answers into actix-web and sqlx values.
- `tests/` runs the library on concrete values.
