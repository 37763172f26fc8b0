# thunderclap

The decision logic of a small widget toolkit, written in Verus with its contracts proved:

- `state`, `ui`, `widgets`, `text`: interaction flags and how buttons, checkboxes and text
  areas react to window events (hover, press, release, focus, typing, cursor moves), including
  which widget of a stack takes a click.
- `input`: what the application's event loop does with each event of the windowing system.
- `pipe`: routing events to handlers by their key.
- `layout`, `clip`, `base`: the children registry of stack layouts, the per-widget clip cache
  of the draw pass with its periodic clean-up, update order, and observed values.
- `draw`, `themes`: swatches, typefaces, what the painters draw for each widget state, the
  Primer button palette, and icon recoloring (through the `image` crate).

`app/` holds what the library leaves to its host: the window and event loop, floating-point
color and layout arithmetic, painting, icon decoding and the event pipelines that run user
closures.
