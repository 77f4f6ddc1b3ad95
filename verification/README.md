# Roku agent runtime

The decision core of an agent runtime, written and proved with Verus: how a request
is routed, how the tool loop goes on from one turn to the next, how a conversation
is compacted, how tool calls are approved, dispatched and answered, and how results
are put together.

- `src/` holds the core. Its functions are deterministic. Each has a contract over
  mathematical views, and Verus proves that the code meets it. What holds across
  functions is stated by the public proof functions whose names begin with `law_`.
- `tests/` runs the core on concrete values.
- `app/` holds the runtime around the core: it calls models and tools, reads files,
  the environment and the clock, and hands what comes back to the core.

The module `tool_loop` is the centre: a `ToolLoop` is told what came of each model
call and each tool run, and says what follows. `app/tool_loop.rs` shows the order in
which its methods are called.

What is believed without proof are five functions that call the standard library or
`serde_json`: `push_char`, `to_lower_case`, `quote`, `read_member_text` and
`indent_text`. Their doc comments say what is believed of each.
