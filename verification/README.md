# tabitha

Interactive widgets for terminal user interfaces, with their behaviour
stated and proved with Verus.

- `src/` is the verified library: the state and logic of each widget — the
  log viewer and developer console, the debug panel, the developer overlays,
  the text box, the data table (filtering, stable sorting, selection, paging,
  scrolling), modal dialogs and their manager, the comet bar, the spinner,
  the tab bar — over plain values, each public function with a contract.
- `app/` draws the widgets with ratatui, turns crossterm events into the
  widgets' events, maps logging levels, and holds what is floating point
  (the progress bar, colour dimming, reading floating-point table cells).
- `tests/` runs the library on concrete values.
