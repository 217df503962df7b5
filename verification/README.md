# codex_tui

The chat widget of a terminal interface to a coding agent, and its channel to an editor.

- `src/` is the verified library. The widget takes the agent's events, the user's keys and
  messages and the editor's selection, and answers with effects in their order. `transition`
  states what it does, `chatwidget` does it, and `laws` proves what holds of whole runs. The
  other modules read the editor's selection and write its messages, drive the channel to the
  editor, decide whether to install the editor's extension, divide the screen, and collect what
  is known outside when an event is handled.
- `app/` performs the effects: it holds the threads of the channel, the tasks of the agent, the
  runs of the editor's command line tools, and the drawing.
- `tests/` runs the library on concrete values, with `serde_json` and `ratatui` linked.

The library leaves parsing and writing JSON to `serde_json`, and the division of the screen to
`ratatui`; what it relies on there is stated in `json` and `layout`.
