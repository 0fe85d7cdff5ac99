# internetdata

A client library for the InternetData API, verified with Verus.

- `src/` is the library. Every function of it is proved against its contract,
  except five small trusted wrappers around outside calls, whose contracts are
  taken on trust: `inspect_url`, `debug_quoted`, `build_http_client` and
  `http_error_text` in `client`, and `read_json_string_member` in `error`.
  The modules:
  `client` (the builder and the client it builds), `error` (classifying a
  refusal, and whether it is worth another attempt), `retry` (the retry budget
  and the backoff schedule), `transfer` (queries, the key header, the `.part`
  file, whole-transfer checks and the download's steps), `vocabulary` (the
  API's closed vocabularies and their wire spellings), `decimal`, `models`,
  `database`, and `catalog` (the integration run's key and the shape rules of
  a listing).
- `app/` is the I/O around it: the HTTP transport, the sleeps of the retry
  loop, streaming a download to disk, the JSON wire shapes, and the
  environment.
- `tests/` exercises the library on concrete values.

TLS: the API is reached over HTTPS through reqwest's `native-tls` backend,
which links the platform's OpenSSL. reqwest's own default, rustls with the
aws-lc-rs provider, needs `cmake` to build, which this project's build
environment does not have.
