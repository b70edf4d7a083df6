# balungpisah_adk

An agent development kit for conversational agents served through a TensorZero
inference gateway, written in Verus.

- `src/` is the verified library: the gateway's request and response model, message
  and thread models, conversion of stored history to gateway input, context filtering,
  tool definitions and results, the server-sent event model, the state machines of the
  chat loop and of the streamed chat loop, thread and message lifecycle decisions,
  object storage keys and checksums, and the PostgreSQL row conversions. Laws of the
  library are public proof functions (for instance `context::properties`).
- `app/` runs the library: HTTP and event-stream calls to the gateway, PostgreSQL and
  S3 storage, async tool executors, and the agent that drives the loop state machines.
- `tests/` exercises the library on concrete values.
