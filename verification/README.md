# monkeytype-tui

A monkeytype-style typing speed game for the terminal, whose game logic is
verified with Verus.

## Layout

- `src/` — the verified library: test text generation (word sampling,
  numbers, punctuation, quote picking), the typing state machine and its
  difficulty rules, line wrapping and cursor placement, every screen's key
  handling (`App::on_key` returns the effects to carry out), settings,
  pickers, history and help navigation, themes, languages and sound cues.
  Each public function states its behaviour in `requires` / `ensures`;
  `src/laws.rs` and a few modules hold the properties that span calls.
- `tests/` — executable tests of the library.
- `app/` — the program around it: terminal input and drawing (crossterm,
  ratatui), audio (rodio), the JSON files in the data directory (serde),
  and the floating-point scores (WPM, accuracy, consistency, personal bests).

The word lists and quotes are read at start-up from `static/languages/` and
`static/quotes/`, in the working directory or beside the executable.
