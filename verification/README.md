# text_cursor

Text cursors and selections over laid-out text, verified with Verus.

- `affinity`, `byte_cursor`: a cursor is a byte index with an affinity; cursors are
  ordered by index, then `Upstream < Downstream`.
- `selection`: a selection between an anchor and a focus, its sorted ends, byte range,
  containment and slicing.
- `layout`: placing cursors and selections in parley layouts, and moving a cursor one
  cluster left or right in visual order across the sections of a galley.
- `input`, `motion`: the keys, modifiers and events a cursor reacts to, and which motion
  a key asks the galley for.
- `cursor_range`: the selected range of a text widget, and how key presses and
  accessibility requests change it.
- `accesskit_position`: the cursor that an accessibility text position stands for.
- `laws`: the properties that hold across these functions.

`app/` holds what needs outside derives: serializable copies of the cursor types and the
reading of accesskit action requests.
