# vane

The request and response state of an L7 proxy stack, verified with Verus.

- `src/error.rs`: the error type shared by the stack and the text each error
  is reported with.
- `src/payload.rs`: the payload of an HTTP exchange (`VaneBody`,
  `PayloadState`), the envelope that carries both directions (`Container`),
  the steps of lazy buffering of either body (what to read, if anything, and
  storing what was read), with the law that a body is read at most once, and the
  decision that settles a response once the middleware flow has run: bridge
  an upgrade both sides agreed to, answer an upgrade the client did not ask
  for with an empty body, or pass the payload on. The laws of that decision
  are proved as lemmas beside it.
- `app/`: the proxy process around the library: the async runtime, connection
  handling, the tunnel that joins two upgraded connections, reading bodies,
  plugin interfaces and the configuration registry.
- `tests/`: tests of the library on concrete values.
