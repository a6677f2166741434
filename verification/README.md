# Cocoa-Way

A Wayland compositor that shows its clients in one native macOS window.

- `src/` is the verified library: the decisions the compositor takes on plain
  values, as functions with contracts. An event goes in, and the effects it
  asks for come out, in order.
  - `messages`: what the menu bar and the clients ask of the event loop
  - `connections`: remote machines and the quick-connect dialog's answer
  - `menu_bar`: the menu bar and the dialog, as descriptions
  - `session`: display mode, window size, frame timing
  - `input`, `drag`: keyboard, pointer, interactive moves
  - `scene`: tiles, popups, what is under the pointer, what is gone
  - `render`: what of each surface is drawn
  - `effect`: what the program is asked to do
- `app/` performs the effects with winit, smithay and AppKit. Scale factors and
  pointer positions are floating point numbers and stay there. A program supplies
  its protocol state, layout, renderer, key map and saved connections through
  `host::Platform` and calls `run`.
- `tests/` runs the library.

The `gnustep-2-1` features in `Cargo.toml` let `app/` be built away from macOS;
on macOS leave them out.
