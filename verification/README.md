# rkllm

Safe sessions over `librkllmrt`, the Rockchip RKLLM runtime, verified with Verus.

- `src/` is the verified library. A session is generic over the bindings it calls
  (`api::RkllmApi`). Its contracts say what the runtime is handed and what is made of
  each answer. `bindings` models the C structs by the values behind their pointers.
- `app/` is ordinary Rust around it: closures as hooks, the C hook callbacks, sessions
  that destroy their model on drop, let one call into the runtime at a time and resume
  a callback's panic, a `Stream` of chunks, and the search for the shared object.
- `tests/` drives the library against a stand-in for the runtime.

An implementation of `RkllmApi` over the shared object itself is not part of this
project.
