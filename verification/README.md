# navigator

A contact book whose screens are stacked by a navigator: a list of contacts,
a detail screen and an edit screen.

- `src/` is the verified library (Verus): the stack of screens and the
  navigator that keeps one widget per open screen (`navigator.rs`), the
  application data, the edit screen's scratch copy and its transfer
  (`state.rs`), the screens' actions and texts (`view.rs`), the decimal text
  of an age and its parsing (`text.rs`), and the example contacts
  (`example_data.rs`).
- `app/` is the druid program around it: the windows, widgets and the loop
  that hands events to the library.
- `tests/` runs the library on concrete values.
