# codewhale_ratatui

Codewhale's terminal components, with their behaviour stated as contracts
and proved with Verus.

- `src/` is the library: themes and color roles, color depth and
  background detection from plain inputs, glyph fallbacks, key labels,
  text safety and truncation, and every component's layout (key hints,
  status marks, spinner, icons, picker, toasts, panels, the horizon and the
  whale). Components compute plain values: styles, spans, lines,
  rectangles and what to draw where.
- `app/` paints those values into ratatui buffers, reads the environment,
  does the floating-point color math and the whale's dot rendering, and
  holds the gallery.
- `tests/` runs the library on concrete values.
