# oxiedraw_ui

The logic of a drawing program's window, proved with Verus: what a press, a drag
and a release mean to each tool, how panels dock and move, what is painted over
the canvas and in which order, how brushes are edited and saved, and what the
export window shows.

## Layout

- `src/` is the library. Every function has a contract, and what holds across
  functions is stated as public proof functions whose names begin with `law_`.
  - `canvas/`: the gestures of the tools, the view, the stroke and its dabs, the
    fill, the frames of the render pump, and the steps of painting.
  - `dock/`: where a dropped panel lands, editing the layout by hand, sizing the
    splits, and carrying a panel.
  - `layout.rs`: the tree of panels, and docking, splitting and removing in it.
  - `brush_manager/`, `brush_picker.rs`: editing brushes, their files, the list.
  - `export/`: the settings, the labels, the preview.
  - `adjustments.rs`, `keys.rs`, `icons.rs`, `pixels.rs`, `text.rs`.
  - `ieee.rs`: floating-point numbers by their bit patterns, and how they compare.
- `tests/` runs the library.
- `app/` is ordinary Rust around it: arithmetic on floats, drawing on a surface,
  files, and what carries the library's answers out on the widgets.

## Floating point

The library holds measures as bit patterns (`Single`, `Double`). It compares them,
as the hardware does; a function that depends on a distance takes the distance, and
the arithmetic stands in `app/`. The export's labels and sizes are the exception: they
are worked out in whole numbers, to the digit that floating point gives.

## What is trusted

Three functions of the standard library are called behind stated contracts:
`Arc::clone`, `String::push` and `str::to_lowercase`.
