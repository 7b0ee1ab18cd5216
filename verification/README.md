# noctiforge_sdk_rust

SDK for writing NoctiForge functions: a handler `Fn(In, Context) -> Future<Output = Result<Out, Problem>>`
is served over gRPC (`noctiforge.action.FunctionRunnerService/Invoke`) on the Unix socket `/run/app.sock`.

- `src/` — the verified library (Verus): the request/answer messages (`messages.rs`) and the
  state machine that decides, for one invocation, what to do with each outcome: decode the
  payload, call the handler once with the request's metadata as its context, encode the output,
  and answer with an `InvokeResult` or a status (`invocation.rs`), with its laws.
- `app/` — the server: the protobuf messages and service, the JSON codec of the user's types,
  the asynchronous handler with panic capture, and `start`, which drives the state machine.
- `tests/` — runs invocations through the state machine with `serde_json` as the codec.
