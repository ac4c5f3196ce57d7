# iced_widget

The logic of a set of GUI widgets, verified with Verus: text inputs (value,
cursor, focus, key handling, input method composition), the pane grid's
layout tree, selectable text groups, rich-text selection (by mouse and
keyboard), text editor key bindings, focus and content, QR code data, the state machines of the pop,
popover and pick list widgets, and the status and scroll-transaction rules
of the scrollable widget (its scrolling itself computes with floating-point
numbers and is not part of the library).

Layout:

- `src/` — the verified library. Pixel values are kept as the bits of `f32`
  numbers; the logic only stores, compares and passes them on. Times are
  plain numbers of milliseconds (or nanoseconds) since a starting point that
  the application chooses; the application reads the clock.
- `tests/` — tests of the library on concrete values.
- `app/` — the floating-point computations (progress bars, rules, scrollbar
  percentages, QR code sizing), clock readings, the counter of unique ids
  and error messages, which stay outside the verified library.
