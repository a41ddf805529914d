# tunic

A small grid-based level editor built on Bevy: models imported from glTF
files are listed in a side palette, a preview of the selected model follows
the cursor over a ground grid, a left click places the model on the cell
under the cursor and a right click removes it; the keyboard moves and turns
the camera.

`src/` is the verified library (Verus): the placement grid and its click
rules (`picker`), the palette, the selection and the import paths
(`pannel`), the camera key handling (`camera`), and the trusted contracts of
Bevy's hash map that the grid is stored in (`cell_map`).

`app/` is the Bevy program around it: windowing, rendering, the user
interface, the file dialog and file copy, and the floating-point transform
arithmetic.
