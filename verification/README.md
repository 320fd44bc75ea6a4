# rabbitmqadmin_sdk

A client for the RabbitMQ Management HTTP API whose core is verified with
Verus.

- `src/` is the verified library: base-URL normalization and the HTTP Basic
  `Authorization` header (`client`), base64 (`base64`), percent-encoding of
  path segments (`encoding`), pagination query pairs (`pagination`), the
  request of every endpoint — method, path, query, 404 context, `X-Reason`
  (`api`), the mapping of an HTTP status and body to a result (`error`), and
  the reading of user tags (`types::common`).
- `app/` is the async client around it: it sends the requests the library
  describes with `reqwest`, and (de)serializes the JSON bodies with `serde`.
- `tests/` holds the tests of the library.
