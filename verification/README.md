# openkit

Widget models for a CSS-styled desktop UI toolkit, verified with Verus.

Each widget keeps its state (selection, focus, hover, open menus, text and
cursor, toggles) in a Rust type whose contents are described by a view, and
each operation states in its contract how it changes that view. Event
handling is written as decision functions: a pointer or key event goes in
(with positions already resolved against the widget's geometry), the new
state comes out together with an action that names the handler to call.

Layout:

- `src/` – the verified library: text helpers, the CSS class list and
  widget state, input events, symbolic theme colors, the clocks, and one
  module per widget under `src/widget/`.
- `tests/` – tests that run the library on concrete values.
- `app/` – the unverified edge: widgets bundled with their event handlers,
  and the values computed in floating point (byte and rate formatting,
  avatar colors, slider values).
