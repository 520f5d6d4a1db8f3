# ssl_file_server

The request handling of a small file server that speaks a private line protocol
over TLS: a request is `method block content`, where `block` is the base64 of a
JSON control block holding a session token (or `.` for none) and `content` is the
base64 of the JSON request; the reply is `success block payload` followed by a
newline, with the block and payload in base64.

- `src/` is the verified library (Verus): request framing and decoding, reply
  encoding, routing of methods to handlers, session tokens (issue, check,
  renew), upload checks (token, CRC-32, storage names), file listing, and the
  answers each handler gives for the outcomes of its database work.
- `app/` is the program around it: TLS and TCP, the async handlers with their
  MySQL queries and file I/O, JSON forms of the library's types, and logging.
- `tests/` exercises the library on concrete values.
