# vektra

The decision logic of the Vektra component library, verified with Verus.

- `src/` — the verified library: activation rules of buttons, checkboxes, radios and
  switches; the tooltip trigger state machine; scrollbar show/fade/hide decisions; the
  virtual list's bookkeeping; the select's data source, active-option state and
  type-ahead; and the text input's editor (selection, history, IME composition, key
  commands), its grapheme/word/UTF-16 arithmetic and its accessibility text runs.
- `tests/` — executable tests of the library.
- `app/` — host-side pixel and fraction computations (scrollbar and tooltip geometry,
  fades, virtual list scroll offsets) that feed the library's decisions.

The components are drawn through the GPUI framework, which this crate does not depend
on: there is no element tree, window or event wiring here. Each component hands its host
plain values instead (render plans, key and pointer outcomes, accessibility runs,
editor states), and a GPUI host builds its elements and listeners from them.
