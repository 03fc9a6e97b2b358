use planetkit::globe::globe_spec::{chunks_per_root_side, is_valid};
use planetkit::globe::{cell_index, contains_pos, ChunkOrigin, ChunkSharedPoints, ChunksInSameRootContainingPoint};
use planetkit::cell_pos::CellPos;
use planetkit::globe::dry_land::{find_dry_land, find_lowest_cell_containing, SpawnSearch, SpawnStep};
use rand::rngs::StdRng;
use rand::SeedableRng;
use planetkit::globe::chunk::{Chunk, DownstreamNeighbor, UpstreamNeighbor};
use planetkit::globe::loaded_chunks::LoadedChunks;
use planetkit::globe::geometry::{
    append_cell_indices, append_side_indices, append_top_indices, cell_shape_at, cull_cell,
};
use planetkit::cell_shape;
use planetkit::globe::shared_cells::{
    add_chunk, pull_shared_cells_for_chunk, push_shared_cells_for_chunk, remove_chunk, sync_shared_cells,
};
use planetkit::grid_point2::GridPoint2;
use planetkit::globe::{ChunkPair, ChunkPairOrigins, Material, PointPair};
use planetkit::grid_point3::{GridPoint3, PosInOwningRoot};
use planetkit::point2::Point3;
use planetkit::GridCoord;

fn collect_origins(mut it: ChunksInSameRootContainingPoint) -> Vec<ChunkOrigin> {
    let mut origins = Vec::new();
    while let Some(origin) = it.next() {
        origins.push(origin);
    }
    origins
}

fn collect_shared_points(mut it: ChunkSharedPoints) -> Vec<Point3> {
    let mut points = Vec::new();
    while let Some(point) = it.next() {
        points.push(point);
    }
    points
}

#[test]
fn chunks_for_point_straddling_two_chunks() {
    // Pick an arbitrary semi-interesting point and make sure we find
    // exactly the chunk origins we should.
    const ROOT_RESOLUTION: [GridCoord; 2] = [4, 8];
    const CHUNK_RESOLUTION: [GridCoord; 3] = [2, 2, 64];
    let point = GridPoint3::new(
        // Arbitrary; just to make sure it flows through to the chunk origin returned
        4.into(),
        3,
        6,
        // Kinda arbitrary; just to make sure it gets calculated based on resolution
        77,
    );
    let chunks_iter = ChunksInSameRootContainingPoint::new(point, ROOT_RESOLUTION, CHUNK_RESOLUTION);
    let chunk_origins: Vec<ChunkOrigin> = collect_origins(chunks_iter);
    assert_eq!(chunk_origins.len(), 2);
    // This is the chunk just north-west of the point.
    assert!(chunk_origins.contains(&ChunkOrigin::new(
        GridPoint3::new(4.into(), 2, 4, 64),
        ROOT_RESOLUTION,
        CHUNK_RESOLUTION,
    )));
    // This is the chunk just south-west of the point.
    assert!(chunk_origins.contains(&ChunkOrigin::new(
        GridPoint3::new(4.into(), 2, 6, 64),
        ROOT_RESOLUTION,
        CHUNK_RESOLUTION,
    )));
}

#[test]
fn number_of_chunks_for_all_kinds_of_points() {
    // Exhaustively test all equivalence classes of points in a chunk,
    // but only to the point of _how many_ chunks each of those points
    // should belong to.
    const ROOT_RESOLUTION: [GridCoord; 2] = [4, 8];
    const CHUNK_RESOLUTION: [GridCoord; 3] = [2, 2, 64];
    let points = (0..9).flat_map(|y| {
        (0..5).map(move |x| {
            GridPoint3::new(
                // Arbitrary
                3.into(),
                x,
                y,
                // Arbitrary
                123456,
            )
        })
    });
    let chunk_counts: Vec<usize> = points
        .map(|point| {
            collect_origins(ChunksInSameRootContainingPoint::new(
                point,
                ROOT_RESOLUTION,
                CHUNK_RESOLUTION,
            ))
            .len()
        })
        .collect();
    assert_eq!(
        chunk_counts,
        vec![
            1, 1, 2, 1, 1,
            1, 1, 2, 1, 1,
            2, 2, 4, 2, 2,
            1, 1, 2, 1, 1,
            2, 2, 4, 2, 2,
            1, 1, 2, 1, 1,
            2, 2, 4, 2, 2,
            1, 1, 2, 1, 1,
            1, 1, 2, 1, 1,
        ]
    );
}

#[test]
fn chunk_shared_points() {
    const ROOT_RESOLUTION: [GridCoord; 2] = [16, 32];
    const CHUNK_RESOLUTION: [GridCoord; 3] = [8, 8, 64];
    let chunk_origin = ChunkOrigin::new(
        Point3::new(
            // Arbitrary; just to make sure it flows through to the chunk origin returned
            4.into(),
            8,
            8,
            192,
        ),
        ROOT_RESOLUTION,
        CHUNK_RESOLUTION,
    );
    let shared_points_iter = ChunkSharedPoints::new(chunk_origin, CHUNK_RESOLUTION);
    let shared_points: Vec<Point3> = collect_shared_points(shared_points_iter);
    // Should have as many points as the whole chunk minus the column down
    // the middle of non-shared cells.
    assert_eq!(shared_points.len(), 9 * 9 * 64 - 7 * 7 * 64);
}

#[test]
fn shared_points_come_in_order_and_lie_on_chunk_sides() {
    let chunk_resolution: [GridCoord; 3] = [2, 3, 2];
    let origin = ChunkOrigin::new(GridPoint3::new(1.into(), 2, 3, 4), [4, 8], chunk_resolution);
    let points = collect_shared_points(ChunkSharedPoints::new(origin, chunk_resolution));
    // 3 x 4 columns, of which only (3, 4) and (3, 5) are interior; 2 layers.
    assert_eq!(points.len(), (3 * 4 - 2) * 2);
    assert_eq!(points[0], GridPoint3::new(1.into(), 2, 3, 4));
    assert_eq!(points[1], GridPoint3::new(1.into(), 2, 3, 5));
    assert_eq!(points[2], GridPoint3::new(1.into(), 2, 4, 4));
    assert_eq!(*points.last().unwrap(), GridPoint3::new(1.into(), 4, 6, 5));
    for p in &points {
        assert_eq!(p.root.index, 1);
        let on_side = p.x == 2 || p.x == 4 || p.y == 3 || p.y == 6;
        assert!(on_side);
        assert!(p.z == 4 || p.z == 5);
    }
    for w in points.windows(2) {
        assert!((w[0].x, w[0].y, w[0].z) < (w[1].x, w[1].y, w[1].z));
    }
    assert!(!points.contains(&GridPoint3::new(1.into(), 3, 4, 4)));
    assert!(!points.contains(&GridPoint3::new(1.into(), 3, 5, 5)));
}

#[test]
fn empty_chunk_has_no_shared_points() {
    let origin = ChunkOrigin::new(GridPoint3::new(0.into(), 0, 0, 0), [4, 8], [2, 2, 2]);
    let mut it = ChunkSharedPoints::new(origin, [2, 2, 0]);
    assert_eq!(it.next(), None);
    assert_eq!(it.next(), None);
}

#[test]
fn chunks_containing_poles_and_corners() {
    let root_resolution: [GridCoord; 2] = [4, 8];
    let chunk_resolution: [GridCoord; 3] = [2, 2, 3];
    // The north pole is only in the first chunk.
    let north = collect_origins(ChunksInSameRootContainingPoint::new(
        GridPoint3::new(2.into(), 0, 0, 5),
        root_resolution,
        chunk_resolution,
    ));
    assert_eq!(north, vec![ChunkOrigin::new(GridPoint3::new(2.into(), 0, 0, 3), root_resolution, chunk_resolution)]);
    // The south pole is only in the last chunk.
    let south = collect_origins(ChunksInSameRootContainingPoint::new(
        GridPoint3::new(2.into(), 4, 8, 0),
        root_resolution,
        chunk_resolution,
    ));
    assert_eq!(south, vec![ChunkOrigin::new(GridPoint3::new(2.into(), 2, 6, 0), root_resolution, chunk_resolution)]);
    // A corner shared by four chunks, in the order same/same, same/prev,
    // prev/same, prev/prev.
    let corner = collect_origins(ChunksInSameRootContainingPoint::new(
        GridPoint3::new(2.into(), 2, 4, 2),
        root_resolution,
        chunk_resolution,
    ));
    let expected: Vec<ChunkOrigin> = [(2, 4), (2, 2), (0, 4), (0, 2)]
        .iter()
        .map(|&(x, y)| ChunkOrigin::new(GridPoint3::new(2.into(), x, y, 0), root_resolution, chunk_resolution))
        .collect();
    assert_eq!(corner, expected);
}

#[test]
fn chunk_origin_wraps_its_position() {
    let pos = GridPoint3::new(3.into(), 4, 8, 12);
    let origin = ChunkOrigin::new(pos, [16, 32], [4, 4, 4]);
    assert_eq!(*origin.pos(), pos);
    let back: GridPoint3 = origin.into();
    assert_eq!(back, pos);
}

#[test]
fn globe_resolutions() {
    assert_eq!(chunks_per_root_side([64, 128], [16, 16, 4]), [4, 8]);
    assert!(is_valid([64, 128], [16, 16, 4]));
    assert!(is_valid([8388608, 16777216], [16, 16, 4]));
    // Chunk resolution does not divide root resolution.
    assert!(!is_valid([64, 128], [24, 16, 4]));
    assert!(!is_valid([64, 128], [16, 48, 4]));
    // Root quad not twice as long in y as in x.
    assert!(!is_valid([64, 64], [16, 16, 4]));
    // Division rounds towards zero, for negative resolutions too.
    assert_eq!(chunks_per_root_side([-64, -120], [16, 16, 4]), [-4, -7]);
    assert!(is_valid([-64, -128], [16, 16, 4]));
    assert!(!is_valid([-64, -120], [16, 16, 4]));
}

#[test]
fn chunk_cell_layout() {
    let res: [GridCoord; 3] = [4, 4, 4];
    let origin = ChunkOrigin::new(GridPoint3::new(0.into(), 4, 8, 12), [16, 32], res);
    assert_eq!(cell_index(&origin, res, GridPoint3::new(0.into(), 4, 8, 12)), 0);
    assert_eq!(cell_index(&origin, res, GridPoint3::new(0.into(), 5, 10, 15)), 86);
    assert_eq!(cell_index(&origin, res, GridPoint3::new(0.into(), 8, 12, 15)), 99);
    // Every cell of the chunk has its own index.
    let mut seen = vec![false; 100];
    for z in 12..16 {
        for y in 8..=12 {
            for x in 4..=8 {
                let pos = GridPoint3::new(0.into(), x, y, z);
                assert!(contains_pos(&origin, res, pos));
                let i = cell_index(&origin, res, pos);
                assert!(!seen[i]);
                seen[i] = true;
            }
        }
    }
    assert!(seen.iter().all(|&s| s));
    // Shared in x and y, but not in z.
    assert!(!contains_pos(&origin, res, GridPoint3::new(0.into(), 4, 8, 16)));
    assert!(!contains_pos(&origin, res, GridPoint3::new(0.into(), 4, 8, 11)));
    assert!(!contains_pos(&origin, res, GridPoint3::new(0.into(), 9, 8, 12)));
    assert!(!contains_pos(&origin, res, GridPoint3::new(0.into(), 4, 7, 12)));
    // Cells of other root quads are not in the chunk.
    assert!(!contains_pos(&origin, res, GridPoint3::new(3.into(), 6, 9, 13)));
}

#[test]
fn syncing_copies_shared_cells_once_per_version() {

    let root_resolution: [GridCoord; 2] = [4, 8];
    let chunk_resolution: [GridCoord; 3] = [2, 2, 2];
    let source = ChunkOrigin::new(GridPoint3::new(0.into(), 0, 0, 0), root_resolution, chunk_resolution);
    let sink = ChunkOrigin::new(GridPoint3::new(0.into(), 2, 0, 0), root_resolution, chunk_resolution);
    let shared = GridPoint3::new(0.into(), 2, 1, 0);
    let mut pair = ChunkPair {
        point_pairs: vec![PointPair { source: PosInOwningRoot::new(shared, root_resolution), sink: shared }],
        last_upstream_edge_version_known_downstream: 0,
    };
    let mut source_cells = vec![Material::Air; 18];
    source_cells[5] = Material::Dirt;
    let mut sink_cells = vec![Material::Air; 18];

    assert!(sync_shared_cells(&mut pair, &source, &source_cells, 1, &sink, &mut sink_cells, chunk_resolution));
    assert_eq!(pair.last_upstream_edge_version_known_downstream, 1);
    let mut expected = vec![Material::Air; 18];
    expected[3] = Material::Dirt;
    assert_eq!(sink_cells, expected);

    // Already up to date: nothing is copied, even if the source changed.
    source_cells[5] = Material::Water;
    assert!(!sync_shared_cells(&mut pair, &source, &source_cells, 1, &sink, &mut sink_cells, chunk_resolution));
    assert_eq!(sink_cells, expected);

    // A newer version is copied again.
    assert!(sync_shared_cells(&mut pair, &source, &source_cells, 2, &sink, &mut sink_cells, chunk_resolution));
    expected[3] = Material::Water;
    assert_eq!(sink_cells, expected);
    assert_eq!(pair.last_upstream_edge_version_known_downstream, 2);
}

#[test]
fn dry_land_is_searched_below_then_above() {
    let d = Material::Dirt;
    let a = Material::Air;
    let w = Material::Water;
    let start = CellPos { rxy: GridPoint2::new(2.into(), 1, 3), z: 2 };
    // Land right at the start, with air above.
    let column = vec![d, d, d, a, a, a, a, a, a];
    assert_eq!(find_dry_land(start, &column, 2, 3), Some(CellPos { z: 2, ..start }));
    // Start is under water: the land below it has water above, the land
    // further up is found first.
    let column = vec![d, d, w, d, a, a, a, a, a];
    assert_eq!(find_dry_land(start, &column, 1, 3), Some(CellPos { z: 3, ..start }));
    // Not enough air above anything within reach.
    let column = vec![d, d, d, d, d, d, d, a, a];
    assert_eq!(find_dry_land(start, &column, 1, 2), None);
    // Within reach once the search may go further.
    assert_eq!(find_dry_land(start, &column, 1, 4), Some(CellPos { z: 6, ..start }));
    // Land below the start is found when nothing nearer is.
    let column = vec![d, a, a, d, d, d, d, d, d];
    assert_eq!(find_dry_land(start, &column, 1, 3), Some(CellPos { z: 0, ..start }));
    // Nothing is searched at a negative reach.
    assert_eq!(find_dry_land(start, &vec![d, d, d, a, a], 1, -1), None);
}

#[test]
fn lowest_cell_is_found_in_the_owning_root() {
    let d = Material::Dirt;
    let a = Material::Air;
    let cells = vec![d, d, a, a];
    // On the north-west edge of root 1, which root 0 owns.
    let column = CellPos { rxy: GridPoint2::new(1.into(), 2, 0), z: 7 };
    assert_eq!(
        find_lowest_cell_containing(column, [4, 8], &cells, a),
        CellPos { rxy: GridPoint2::new(0.into(), 0, 2), z: 2 }
    );
    let inside = CellPos { rxy: GridPoint2::new(2.into(), 1, 3), z: 0 };
    assert_eq!(find_lowest_cell_containing(inside, [4, 8], &cells, d), inside);
}

fn loaded_chunk(
    origin: ChunkOrigin,
    cells: Vec<Material>,
    upstream: Vec<ChunkOrigin>,
    downstream: Vec<ChunkOrigin>,
) -> Chunk {
    Chunk {
        origin,
        chunk_resolution: [2, 2, 2],
        cells,
        owned_edge_version: 1,
        upstream_neighbors: upstream.into_iter().map(|o| UpstreamNeighbor { origin: o, shared_cells: vec![] }).collect(),
        downstream_neighbors: downstream
            .into_iter()
            .map(|o| DownstreamNeighbor { origin: o, shared_cells: vec![] })
            .collect(),
        is_view_dirty: false,
    }
}

#[test]
fn pushing_and_pulling_keep_neighbors_in_step() {
    let root_resolution: [GridCoord; 2] = [4, 8];
    let chunk_resolution: [GridCoord; 3] = [2, 2, 2];
    let a = ChunkOrigin::new(GridPoint3::new(0.into(), 0, 0, 0), root_resolution, chunk_resolution);
    let b = ChunkOrigin::new(GridPoint3::new(0.into(), 2, 0, 0), root_resolution, chunk_resolution);
    // Not loaded.
    let c = ChunkOrigin::new(GridPoint3::new(0.into(), 0, 2, 0), root_resolution, chunk_resolution);
    let shared = GridPoint3::new(0.into(), 2, 1, 0);
    let mut a_cells = vec![Material::Air; 18];
    a_cells[5] = Material::Dirt;
    let mut chunks = vec![
        loaded_chunk(a, a_cells, vec![], vec![b, c]),
        loaded_chunk(b, vec![Material::Air; 18], vec![a], vec![]),
    ];
    let mut pairs = vec![
        (
            ChunkPairOrigins { source: a, sink: b },
            ChunkPair {
                point_pairs: vec![PointPair { source: PosInOwningRoot::new(shared, root_resolution), sink: shared }],
                last_upstream_edge_version_known_downstream: 0,
            },
        ),
        (
            ChunkPairOrigins { source: a, sink: c },
            ChunkPair { point_pairs: vec![], last_upstream_edge_version_known_downstream: 0 },
        ),
    ];

    push_shared_cells_for_chunk(&mut chunks, &mut pairs, a, chunk_resolution);
    assert_eq!(chunks[1].cells[3], Material::Dirt);
    assert!(chunks[1].is_view_dirty);
    assert!(!chunks[0].is_view_dirty);
    assert_eq!(pairs[0].1.last_upstream_edge_version_known_downstream, 1);
    assert_eq!(pairs[1].1.last_upstream_edge_version_known_downstream, 0);

    // Nothing new to pull.
    chunks[1].is_view_dirty = false;
    pull_shared_cells_for_chunk(&mut chunks, &mut pairs, b, chunk_resolution);
    assert!(!chunks[1].is_view_dirty);

    // The owner changes the shared cell and bumps its version.
    chunks[0].cells[5] = Material::Water;
    chunks[0].owned_edge_version = 2;
    pull_shared_cells_for_chunk(&mut chunks, &mut pairs, b, chunk_resolution);
    assert_eq!(chunks[1].cells[3], Material::Water);
    assert!(chunks[1].is_view_dirty);
    assert_eq!(pairs[0].1.last_upstream_edge_version_known_downstream, 2);
    let mut expected = vec![Material::Air; 18];
    expected[3] = Material::Water;
    assert_eq!(chunks[1].cells, expected);
}

#[test]
fn the_last_pair_naming_a_sink_cell_wins() {
    let root_resolution: [GridCoord; 2] = [4, 8];
    let chunk_resolution: [GridCoord; 3] = [2, 2, 2];
    let source = ChunkOrigin::new(GridPoint3::new(0.into(), 0, 0, 0), root_resolution, chunk_resolution);
    let sink = ChunkOrigin::new(GridPoint3::new(0.into(), 2, 0, 0), root_resolution, chunk_resolution);
    let first = GridPoint3::new(0.into(), 2, 1, 0);
    let second = GridPoint3::new(0.into(), 2, 2, 0);
    let mut pair = ChunkPair {
        point_pairs: vec![
            PointPair { source: PosInOwningRoot::new(first, root_resolution), sink: first },
            PointPair { source: PosInOwningRoot::new(second, root_resolution), sink: first },
        ],
        last_upstream_edge_version_known_downstream: 0,
    };
    let mut source_cells = vec![Material::Air; 18];
    source_cells[5] = Material::Dirt;
    source_cells[8] = Material::Water;
    let mut sink_cells = vec![Material::Air; 18];
    assert!(sync_shared_cells(&mut pair, &source, &source_cells, 1, &sink, &mut sink_cells, chunk_resolution));
    let mut expected = vec![Material::Air; 18];
    expected[3] = Material::Water;
    assert_eq!(sink_cells, expected);
}

#[test]
fn adding_and_removing_chunks_tracks_their_pairs() {
    let root_resolution: [GridCoord; 2] = [4, 8];
    let chunk_resolution: [GridCoord; 3] = [2, 2, 2];
    let a = ChunkOrigin::new(GridPoint3::new(0.into(), 0, 0, 0), root_resolution, chunk_resolution);
    let b = ChunkOrigin::new(GridPoint3::new(0.into(), 2, 0, 0), root_resolution, chunk_resolution);
    let c = ChunkOrigin::new(GridPoint3::new(0.into(), 0, 2, 0), root_resolution, chunk_resolution);
    let shared = GridPoint3::new(0.into(), 2, 1, 0);
    let point_pair = PointPair { source: PosInOwningRoot::new(shared, root_resolution), sink: shared };
    let mut chunks: Vec<Chunk> = Vec::new();
    let mut pairs: Vec<(ChunkPairOrigins, ChunkPair)> = Vec::new();

    let mut chunk_a = loaded_chunk(a, vec![Material::Air; 18], vec![], vec![c]);
    chunk_a.downstream_neighbors.push(DownstreamNeighbor { origin: b, shared_cells: vec![point_pair] });
    add_chunk(&mut chunks, &mut pairs, chunk_a);
    assert_eq!(chunks.len(), 1);
    assert_eq!(pairs.len(), 2);
    assert_eq!(pairs[0].0, ChunkPairOrigins { source: a, sink: c });
    assert_eq!(pairs[1].0, ChunkPairOrigins { source: a, sink: b });
    assert_eq!(pairs[1].1.point_pairs, vec![point_pair]);
    assert_eq!(pairs[1].1.last_upstream_edge_version_known_downstream, 0);

    // The pair with `a` is already tracked; only the one with `c` is new.
    add_chunk(&mut chunks, &mut pairs, loaded_chunk(b, vec![Material::Air; 18], vec![a], vec![c]));
    assert_eq!(chunks.len(), 2);
    assert_eq!(pairs.len(), 3);
    assert_eq!(pairs[2].0, ChunkPairOrigins { source: b, sink: c });
    assert_eq!(pairs[1].1.point_pairs, vec![point_pair]);

    let removed = remove_chunk(&mut chunks, &mut pairs, a);
    assert_eq!(removed.origin, a);
    assert_eq!(chunks.len(), 1);
    assert_eq!(chunks[0].origin, b);
    assert_eq!(pairs.len(), 1);
    assert_eq!(pairs[0].0, ChunkPairOrigins { source: b, sink: c });
}

#[test]
fn syncing_again_from_unchanged_cells_changes_nothing() {
    let root_resolution: [GridCoord; 2] = [4, 8];
    let chunk_resolution: [GridCoord; 3] = [2, 2, 2];
    let source = ChunkOrigin::new(GridPoint3::new(0.into(), 0, 0, 0), root_resolution, chunk_resolution);
    let sink = ChunkOrigin::new(GridPoint3::new(0.into(), 2, 0, 0), root_resolution, chunk_resolution);
    let first = GridPoint3::new(0.into(), 2, 1, 1);
    let second = GridPoint3::new(0.into(), 2, 0, 0);
    let mut pair = ChunkPair {
        point_pairs: vec![
            PointPair { source: PosInOwningRoot::new(first, root_resolution), sink: first },
            PointPair { source: PosInOwningRoot::new(second, root_resolution), sink: second },
        ],
        last_upstream_edge_version_known_downstream: 3,
    };
    let source_cells: Vec<Material> = (0..18).map(|i| if i % 2 == 0 { Material::Dirt } else { Material::Water }).collect();
    let mut sink_cells = vec![Material::Air; 18];
    assert!(sync_shared_cells(&mut pair, &source, &source_cells, 4, &sink, &mut sink_cells, chunk_resolution));
    let once = sink_cells.clone();
    assert_eq!(once[12], source_cells[14]);
    assert_eq!(once[0], source_cells[2]);
    assert!(sync_shared_cells(&mut pair, &source, &source_cells, 5, &sink, &mut sink_cells, chunk_resolution));
    assert_eq!(sink_cells, once);
}

#[test]
fn writing_a_cell_changes_only_that_cell() {
    let root_resolution: [GridCoord; 2] = [4, 8];
    let chunk_resolution: [GridCoord; 3] = [2, 2, 2];
    let origin = ChunkOrigin::new(GridPoint3::new(0.into(), 2, 0, 0), root_resolution, chunk_resolution);
    let mut chunk = loaded_chunk(origin, vec![Material::Air; 18], vec![], vec![]);
    let p = GridPoint3::new(0.into(), 3, 1, 1);
    let q = GridPoint3::new(0.into(), 4, 2, 0);
    *chunk.cell_mut(p) = Material::Dirt;
    assert_eq!(*chunk.cell(p), Material::Dirt);
    assert_eq!(*chunk.cell(q), Material::Air);
    // Stored at (z, y, x) = (1, 1, 1).
    assert_eq!(chunk.cells[9 + 3 + 1], Material::Dirt);
    assert_eq!(chunk.cells.iter().filter(|m| **m == Material::Dirt).count(), 1);
    assert_eq!(chunk.origin, origin);
    assert!(!chunk.is_view_dirty);
}

#[test]
fn removing_a_chunk_gives_it_back() {
    let root_resolution: [GridCoord; 2] = [4, 8];
    let chunk_resolution: [GridCoord; 3] = [2, 2, 2];
    let a = ChunkOrigin::new(GridPoint3::new(0.into(), 0, 0, 0), root_resolution, chunk_resolution);
    let b = ChunkOrigin::new(GridPoint3::new(0.into(), 2, 0, 0), root_resolution, chunk_resolution);
    let mut chunks: Vec<Chunk> = Vec::new();
    let mut pairs: Vec<(ChunkPairOrigins, ChunkPair)> = Vec::new();
    add_chunk(&mut chunks, &mut pairs, loaded_chunk(a, vec![Material::Dirt; 18], vec![], vec![]));
    add_chunk(&mut chunks, &mut pairs, loaded_chunk(b, vec![Material::Water; 18], vec![], vec![]));
    let removed = remove_chunk(&mut chunks, &mut pairs, b);
    assert_eq!(removed.origin, b);
    assert_eq!(removed.cells, vec![Material::Water; 18]);
    assert_eq!(chunks.len(), 1);
    assert_eq!(chunks[0].origin, a);
    assert_eq!(chunks[0].cells, vec![Material::Dirt; 18]);
}

#[test]
fn chunk_edges_draw_the_right_portion_of_each_cell() {
    let (end_x, end_y) = (4, 8);
    let cases = [
        ((0, 0), cell_shape::north_portion()),
        ((4, 8), cell_shape::south_portion()),
        ((4, 0), cell_shape::west_portion()),
        ((0, 8), cell_shape::east_portion()),
        ((2, 0), cell_shape::north_west_portion()),
        ((0, 3), cell_shape::north_east_portion()),
        ((4, 5), cell_shape::south_west_portion()),
        ((1, 8), cell_shape::south_east_portion()),
        ((2, 5), cell_shape::full_hex()),
    ];
    for ((x, y), expected) in cases {
        assert_eq!(cell_shape_at(x, y, end_x, end_y).top_outline_dir_offsets, expected.top_outline_dir_offsets);
    }
}

#[test]
fn cells_without_air_around_are_culled() {
    assert!(cull_cell(&vec![Some(Material::Dirt), None, Some(Material::Water)]));
    assert!(!cull_cell(&vec![Some(Material::Dirt), Some(Material::Air)]));
    assert!(cull_cell(&vec![]));
}

#[test]
fn cell_triangles_fan_over_the_top_and_wrap_round_the_sides() {
    let mut index_data = vec![99];
    append_top_indices(10, 4, &mut index_data);
    assert_eq!(index_data, vec![99, 10, 11, 12, 10, 12, 13]);

    let mut sides = Vec::new();
    append_side_indices(20, 30, 3, &mut sides);
    assert_eq!(
        sides,
        vec![20, 30, 21, 21, 30, 31, 21, 31, 22, 22, 31, 32, 22, 32, 20, 20, 32, 30]
    );

    let mut all = Vec::new();
    append_cell_indices(0, 3, &mut all);
    assert_eq!(all, vec![0, 1, 2, 3, 6, 4, 4, 6, 7, 4, 7, 5, 5, 7, 8, 5, 8, 3, 3, 8, 6]);
}

#[test]
fn spawn_search_gives_up_after_its_attempts() {
    let mut rng = StdRng::seed_from_u64(7);
    let mut search = SpawnSearch::new(2);
    let first = search.next_attempt([4, 8], &mut rng);
    assert!(matches!(first, SpawnStep::TryColumn(c) if c.root.index < 5 && c.x < 4 && c.y < 4));
    let second = search.attempt_done(None, [4, 8], &mut rng);
    assert!(matches!(second, SpawnStep::TryColumn(_)));
    assert_eq!(search.attempt_done(None, [4, 8], &mut rng), SpawnStep::GiveUp);
    assert_eq!(search.next_attempt([4, 8], &mut rng), SpawnStep::GiveUp);

    let mut search = SpawnSearch::new(3);
    let land = CellPos { rxy: GridPoint2::new(1.into(), 2, 3), z: 9 };
    assert_eq!(search.attempt_done(Some(land), [4, 8], &mut rng), SpawnStep::Found(CellPos { z: 10, ..land }));
    assert_eq!(SpawnSearch::new(0).next_attempt([4, 8], &mut rng), SpawnStep::GiveUp);
}

#[test]
fn loaded_chunks_keep_neighbors_in_step() {
    let root_resolution: [GridCoord; 2] = [4, 8];
    let chunk_resolution: [GridCoord; 3] = [2, 2, 2];
    let a = ChunkOrigin::new(GridPoint3::new(0.into(), 0, 0, 0), root_resolution, chunk_resolution);
    let b = ChunkOrigin::new(GridPoint3::new(0.into(), 2, 0, 0), root_resolution, chunk_resolution);
    let shared = GridPoint3::new(0.into(), 2, 1, 0);
    let point_pair = PointPair { source: PosInOwningRoot::new(shared, root_resolution), sink: shared };
    let mut loaded = LoadedChunks::new();
    assert!(loaded.chunk_at(a).is_none());

    let mut a_cells = vec![Material::Air; 18];
    a_cells[5] = Material::Dirt;
    let mut chunk_a = loaded_chunk(a, a_cells, vec![], vec![]);
    chunk_a.downstream_neighbors.push(DownstreamNeighbor { origin: b, shared_cells: vec![point_pair] });
    loaded.add_chunk(chunk_a);
    let mut chunk_b = loaded_chunk(b, vec![Material::Air; 18], vec![], vec![]);
    chunk_b.upstream_neighbors.push(UpstreamNeighbor { origin: a, shared_cells: vec![point_pair] });
    loaded.add_chunk(chunk_b);

    // The new chunk pulls what it is missing.
    loaded.pull_shared_cells_for_chunk(b, chunk_resolution);
    assert_eq!(loaded.chunk_at(b).unwrap().cells[3], Material::Dirt);
    assert!(loaded.chunk_at(b).unwrap().is_view_dirty);
    // Pushing the same version again copies nothing.
    loaded.push_shared_cells_for_chunk(a, chunk_resolution);
    assert_eq!(loaded.chunk_at(b).unwrap().cells[3], Material::Dirt);

    let removed = loaded.remove_chunk(a);
    assert_eq!(removed.origin, a);
    assert!(loaded.chunk_at(a).is_none());
    assert_eq!(loaded.chunk_at(b).unwrap().origin, b);
}
