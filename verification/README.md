# napi-ohos-uniffi-engine

Binds a family of UniFFI operations to an OpenHarmony host: it checks the plan
of a family, generates the Rust source of its bridge, and decides what a backend
session does with callbacks, streams and objects from creation to close.

The library under `src/` is verified with Verus.

- `family`, `plan`, `error`: a family of operations, the plan that serves it, and
  every way in which a plan is refused.
- `ast`, `codegen`: the functions and the text of the generated module.
- `host`, `backend`: a session over a host that is called directly.
- `session`: a session over JavaScript values. Each step is a decision; the
  caller performs it and reports what came back.
- `facade`: the public facade of a package and where it may be published.
- `text`, `number`, `ordered`, `value`: shared notions.

Contracts stand over the models of the types (`...Model`). Properties of several
operations together are public proof functions beside the functions they speak
of, and in `backend/laws.rs`.

`app/` performs the decisions: the N-API calls, the locks and futures, the token
streams and the file system.
