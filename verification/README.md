# lua_interface_interpretator

A builder of Garry's Mod (GLua) VGUI interfaces: a design is a tree of
panels, buttons, frames, text entries and images with their layers, and the
library writes the GLua code that creates it.

- `src/` is the verified library:
  - `model/`: elements, position and size expressions, layers, and the
    project with its structural edits (add, remove with descendants, reorder,
    move, duplicate, close buttons);
  - `codegen/`: the exporter, from the tree order and the unique Lua locals
    of the elements to the setup and `Paint` code of each panel;
  - `ui/`: the editor's logic: selection, undo and redo, shortcuts, the
    hierarchy's and the scripts window's edits, image drops;
  - `text.rs`, `paths.rs`, `ids.rs`: text helpers, image file paths, and
    fresh random ids.
- `tests/` runs the library on concrete designs.
- `app/` is the editor itself (egui): drawing, floating-point geometry, files,
  clipboard and the JSON project format.
