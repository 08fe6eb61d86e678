# herdr_pointer

Mouse pointer shapes for a terminal multiplexer, verified with Verus.

- `src/cursor_shape.rs`: the shapes, their W3C cursor names and the OSC 22
  byte sequences that request them (`ESC ] 22 ; <name> ESC \`).
- `src/terminal_notify.rs`: the tmux DCS passthrough wrapping, which doubles
  every ESC byte.
- `src/geometry.rs`: screen rectangles whose edges fit in `u16`.
- `src/pointer.rs`: choosing the shape from the configuration, the layout, the
  drag in progress, the input mode and the hit tests at the pointer's cell.
- `app/`: writing sequences to a terminal, the serde form of the shape, and
  conversions from crossterm and ratatui values.
