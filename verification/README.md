# aflak

The state and decisions of aflak's 2D image views, written in Verus.

- `src/` is the verified library. `pipeline` holds typed transformations and
  the caller that is fed their inputs; `handle` the frame-by-frame logic of a
  draggable handle; `image2d` and `imshow` the two image views' states;
  `interactions` the horizontal and vertical lines placed on an image;
  `text` decimal numbers and the pixel tooltip; `histogram` the histogram's
  scale.
- `tests/` runs the library on concrete values.
- `app/` draws the views with imgui and glium. It holds the floating-point
  geometry and the color map, and asks the library what to do. It uses the
  view crate's own `lut`, `hist`, `image`, `ticks` and `util` modules, which
  are not part of this repository.
