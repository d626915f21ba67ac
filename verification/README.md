# copper

The verified core of a schematic viewer.

- `src/` is the library, verified with Verus: browsing the components of a
  library (`navigation`), the main window's reaction to its messages
  and its render steps (`window_events`), text alignment (`text_layout`), frame timing (`frame_clock`), the collision ids and
  lookups of a loaded schema (`schema_index`), drawable groups (`group`),
  command-line arguments (`cli`) and the coordinate-space markers (`spaces`).
- `app/` holds what computes in floating point or talks to the graphics
  stack: vertices, colors, the view state and its transforms, the
  tessellator's vertex constructor, render targets and the clock.
- `tests/` runs the library on concrete values.
