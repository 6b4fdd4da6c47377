# flyline

The decision logic of the flyline command-line editor for Bash, written in
Verus. Every function in `src/` carries a contract. Verus proves all of them
except the few marked `external_body`, which call std, libc, unicode-width or
ratatui and whose contracts are believed as written.

Layout:

- `src/text.rs`: character-level string helpers (prefixes, substrings, ASCII
  lower-casing) used by the other modules.
- `src/i18n.rs`, `src/zh_tables.rs`: language detection from locale values,
  the Simplified Chinese translation tables, and template filling;
  `src/zh_placeholders.rs` proves that each translation keeps the
  placeholders of its English text.
- `src/mouse.rs`: the declarative mouse bindings, how a mouse event is handled
  and matched against them, what each action does, redraws and pointer
  shapes.
- `src/completion.rs`: what happens to tab completion after an edit.
- `src/event_loop.rs`: the main loop's decisions: start-up and resize
  requests, how each terminal event changes the loop, the redraw interval,
  exits, and the terminal cursor's visibility.
- `src/buffer_change.rs`: agent-command prefixes and content-mode changes
  after an edit.
- `src/cursor.rs`: cursor backend selection and the logical cursor position.
- `src/input_stream.rs`: the byte stream that Bash reads command lines from,
  and what the builtin's load, unload and getter hooks do.
- `src/table.rs`: Markdown tables drawn with box-drawing characters.
- `src/app_state.rs`: exit states, viewport shifts, signal names, submitting
  the buffer, and starting the agent command.
- `app/`: the surrounding code that reads the environment, talks to clap and
  ratatui, computes floating-point cursor effects and sets signal
  dispositions.

Laws that relate several functions are public proof functions whose names
start with `law_`.
