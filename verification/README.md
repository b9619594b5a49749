# autonomous_driving

A top-down racing simulator with a track editor, written with
[macroquad](https://macroquad.rs). The rules of the game are a library
verified with Verus; the program around it draws, reads input and runs the
floating-point physics.

Layout:

- `src/` — the verified library
  - `timing` — checkpoint progress, lap and sector times (`TimingState`,
    `LapTimes`, `SectorTimes`), with laws on lap counting and best times
  - `editor` — the editor's undo/redo history, its tool state and the
    decisions of each tool
  - `track` — nearest-segment queries over distance keys, raw point
    editing, mesh chunks and quad indices
  - `text` — decimal formatting of checkpoint labels
- `app/` — the macroquad program: window, main loop, car physics, track
  building, rendering and editor UI
- `tests/` — tests of the library

Times in the library are integer microseconds since the start of the
session; the program converts the frame clock's seconds. Distances are
handed to the library as *keys*, the bit patterns of non-negative `f32`
values, which order as the values do.
