# planetkit grid

The grid of a voxel planet, verified with Verus.

A globe is tiled by five root quads. Each root quad is a grid of
hexagonal cells (with twelve pentagons at the corners of the quads),
stacked in layers along `z`, and partitioned into chunks.

- `root`, `dir`, `grid_point2`, `grid_point3`, `cell_pos`, `point2`:
  points, directions and root quads; which root owns a cell on the
  boundary between quads (`PosInOwningRoot`), and a total order on cells.
- `cell_shape`: offsets from a cell centre to its edges, vertices and
  neighbours, and the outlines of partial cells drawn at chunk edges.
- `movement`: the cell adjacent in a direction, pentagons and root edges,
  and the choice of triangle to work in near the edge of a root quad.
- `globe`: chunk origins, the chunks in a root that contain a point, the
  cells a chunk shares with its neighbours, a chunk's cell layout and
  cell access, the loaded chunks (`LoadedChunks`, at most one per origin)
  together with the pairs of chunks whose shared cells are tracked, the
  versioned pushing and pulling of shared cells between loaded chunks,
  which part of each cell a chunk draws and how its triangles are joined,
  and the search for dry land to spawn on.
- `input`, `net`: the keys the controls respond to, and how messages are
  addressed to network peers.
- `cell_dweller`: moving and mining with the controlled cell dweller: key
  bindings, which step or turn to take, how far a step climbs, when a
  block may be picked up, and the messages peers exchange about it.
- `kaboom`: the game's state machine for players and fighters, scoring
  deaths, shooting grenades, and routing its network messages.

The systems that need the entity world, the renderer, the clock or the
network take the results of those as arguments and return what to do;
the caller performs it.

Each public function states its result in its `ensures`; the `lemma_`
proof functions state the laws that hold across calls. `tests/` runs the
library on concrete values.
