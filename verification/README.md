# scout

A keyboard-driven terminal client for firing HTTP requests and reading the
responses, with vim-like Normal and Insert modes.

- `src/` is the verified library: the application state and its reaction to
  every key press and response (`app`), the events (`event`), requests,
  collections and responses (`request`), turning a request into an HTTP
  request and the answer into a response (`http`), the texts, state-dependent
  colours and highlighted lines the screen shows (`ui`), widget selection (`widgets`), text helpers (`text`) and the
  properties of the whole state machine (`laws`).
- `app/` is the program: terminal setup, the event loop, keyboard polling,
  the network round trip, and drawing with ratatui (layout, panel titles and
  fixed decorations).
- `tests/` exercises the library on concrete inputs.
