//! Keeping the copies of shared cells in a sink chunk up to date with the
//! chunk that owns them.
use vstd::prelude::*;

use super::chunk::{
    cell_index, cell_index_of, chunk_cell_count, is_within_chunk, lemma_cell_index_bounds, Chunk, DownstreamNeighbor,
    Material, UpstreamNeighbor,
};
use super::chunk_origin::ChunkOrigin;
use super::chunk_pair::{ChunkPair, ChunkPairOrigins, PointPair};
use crate::grid_point3::GridPoint3;
use crate::GridCoord;

verus! {

/// The sink chunk's cells `sink` after copying, pair by pair in order, the
/// source chunk's cell at each pair's source into the sink chunk's cell at
/// the pair's sink.
pub open spec fn shared_cells_copied(
    sink: Seq<Material>,
    source: Seq<Material>,
    source_origin: GridPoint3,
    sink_origin: GridPoint3,
    chunk_resolution: [GridCoord; 3],
    pairs: Seq<PointPair>,
) -> Seq<Material>
    decreases pairs.len(),
{
    if pairs.len() == 0 {
        sink
    } else {
        let p = pairs.last();
        shared_cells_copied(sink, source, source_origin, sink_origin, chunk_resolution, pairs.drop_last()).update(
            cell_index_of(sink_origin, chunk_resolution, p.sink),
            source[cell_index_of(source_origin, chunk_resolution, p.source@)],
        )
    }
}

/// Whether every pair's source lies in the source chunk and its sink in
/// the sink chunk.
pub open spec fn pairs_within_chunks(
    source_origin: GridPoint3,
    sink_origin: GridPoint3,
    chunk_resolution: [GridCoord; 3],
    pairs: Seq<PointPair>,
) -> bool {
    forall|k: int|
        0 <= k < pairs.len() ==> {
            &&& is_within_chunk(source_origin, chunk_resolution, #[trigger] pairs[k].source@)
            &&& is_within_chunk(sink_origin, chunk_resolution, pairs[k].sink)
        }
}

/// Which of `pairs` names, as its sink, the cell stored at `i` in the sink
/// chunk at `sink_origin` last; -1 if none does.
pub open spec fn last_pair_naming(
    sink_origin: GridPoint3,
    chunk_resolution: [GridCoord; 3],
    pairs: Seq<PointPair>,
    i: int,
) -> int
    decreases pairs.len(),
{
    if pairs.len() == 0 {
        -1
    } else if cell_index_of(sink_origin, chunk_resolution, pairs.last().sink) == i {
        pairs.len() - 1
    } else {
        last_pair_naming(sink_origin, chunk_resolution, pairs.drop_last(), i)
    }
}

/// After copying, the cell stored at `i` holds the source chunk's cell
/// named by the last pair that names it, or what it held before if no
/// pair does.
pub proof fn lemma_shared_cell_after_copying(
    sink: Seq<Material>,
    source: Seq<Material>,
    source_origin: GridPoint3,
    sink_origin: GridPoint3,
    chunk_resolution: [GridCoord; 3],
    pairs: Seq<PointPair>,
    i: int,
)
    requires
        sink.len() == chunk_cell_count(chunk_resolution),
        0 <= i < sink.len(),
        pairs_within_chunks(source_origin, sink_origin, chunk_resolution, pairs),
    ensures
        ({
            let k = last_pair_naming(sink_origin, chunk_resolution, pairs, i);
            &&& -1 <= k < pairs.len()
            &&& shared_cells_copied(sink, source, source_origin, sink_origin, chunk_resolution, pairs)[i] == if k < 0 {
                sink[i]
            } else {
                source[cell_index_of(source_origin, chunk_resolution, pairs[k].source@)]
            }
        }),
    decreases pairs.len(),
{
    if pairs.len() > 0 {
        let n = pairs.len() - 1;
        let rest = pairs.drop_last();
        assert(pairs_within_chunks(source_origin, sink_origin, chunk_resolution, rest)) by {
            assert forall|k: int| 0 <= k < rest.len() implies {
                &&& is_within_chunk(source_origin, chunk_resolution, #[trigger] rest[k].source@)
                &&& is_within_chunk(sink_origin, chunk_resolution, rest[k].sink)
            } by {
                assert(rest[k] == pairs[k]);
            }
        }
        lemma_shared_cell_after_copying(sink, source, source_origin, sink_origin, chunk_resolution, rest, i);
        lemma_shared_cells_copied_len(sink, source, source_origin, sink_origin, chunk_resolution, rest);
        assert(is_within_chunk(source_origin, chunk_resolution, pairs[n].source@));
        lemma_cell_index_bounds(sink_origin, chunk_resolution, pairs[n].sink);
        assert(pairs.last() == pairs[n]);
        let k = last_pair_naming(sink_origin, chunk_resolution, rest, i);
        if k >= 0 {
            assert(rest[k] == pairs[k]);
        }
    }
}

/// Copying the shared cells a second time, from the same source cells,
/// changes nothing: a sync that repeats one already done is harmless.
pub proof fn lemma_copying_twice_changes_nothing(
    sink: Seq<Material>,
    source: Seq<Material>,
    source_origin: GridPoint3,
    sink_origin: GridPoint3,
    chunk_resolution: [GridCoord; 3],
    pairs: Seq<PointPair>,
)
    requires
        sink.len() == chunk_cell_count(chunk_resolution),
        pairs_within_chunks(source_origin, sink_origin, chunk_resolution, pairs),
    ensures
        shared_cells_copied(
            shared_cells_copied(sink, source, source_origin, sink_origin, chunk_resolution, pairs),
            source,
            source_origin,
            sink_origin,
            chunk_resolution,
            pairs,
        ) == shared_cells_copied(sink, source, source_origin, sink_origin, chunk_resolution, pairs),
{
    let once = shared_cells_copied(sink, source, source_origin, sink_origin, chunk_resolution, pairs);
    lemma_shared_cells_copied_len(sink, source, source_origin, sink_origin, chunk_resolution, pairs);
    lemma_shared_cells_copied_len(once, source, source_origin, sink_origin, chunk_resolution, pairs);
    let twice = shared_cells_copied(once, source, source_origin, sink_origin, chunk_resolution, pairs);
    assert forall|i: int| 0 <= i < once.len() implies twice[i] == once[i] by {
        lemma_shared_cell_after_copying(sink, source, source_origin, sink_origin, chunk_resolution, pairs, i);
        lemma_shared_cell_after_copying(once, source, source_origin, sink_origin, chunk_resolution, pairs, i);
    }
    assert(twice =~= once);
}

/// Brings the sink chunk's copies of the cells it shares with the source
/// chunk up to date, unless `pair` records that the sink already has the
/// source's `source_owned_edge_version`. Returns whether anything was
/// copied, in which case the sink chunk's view is out of date.
pub fn sync_shared_cells(
    pair: &mut ChunkPair,
    source_origin: &ChunkOrigin,
    source_cells: &Vec<Material>,
    source_owned_edge_version: u64,
    sink_origin: &ChunkOrigin,
    sink_cells: &mut Vec<Material>,
    chunk_resolution: [GridCoord; 3],
) -> (copied: bool)
    requires
        chunk_cell_count(chunk_resolution) <= usize::MAX,
        chunk_cell_count(chunk_resolution) <= i64::MAX,
        source_cells@.len() == chunk_cell_count(chunk_resolution),
        old(sink_cells)@.len() == chunk_cell_count(chunk_resolution),
        pairs_within_chunks(source_origin@, sink_origin@, chunk_resolution, old(pair).point_pairs@),
    ensures
        copied == (old(pair).last_upstream_edge_version_known_downstream != source_owned_edge_version),
        final(pair).point_pairs@ == old(pair).point_pairs@,
        final(pair).last_upstream_edge_version_known_downstream == source_owned_edge_version,
        final(sink_cells)@ == if copied {
            shared_cells_copied(
                old(sink_cells)@,
                source_cells@,
                source_origin@,
                sink_origin@,
                chunk_resolution,
                old(pair).point_pairs@,
            )
        } else {
            old(sink_cells)@
        },
{
    if pair.last_upstream_edge_version_known_downstream == source_owned_edge_version {
        // Sink chunk is already up-to-date.
        return false;
    }

    // Copy over each cell, one-by-one.
    let mut i: usize = 0;
    while i < pair.point_pairs.len()
        invariant
            0 <= i <= pair.point_pairs@.len(),
            pair.point_pairs@ == old(pair).point_pairs@,
            pair.last_upstream_edge_version_known_downstream == old(pair).last_upstream_edge_version_known_downstream,
            chunk_cell_count(chunk_resolution) <= usize::MAX,
            chunk_cell_count(chunk_resolution) <= i64::MAX,
            source_cells@.len() == chunk_cell_count(chunk_resolution),
            sink_cells@.len() == chunk_cell_count(chunk_resolution),
            pairs_within_chunks(source_origin@, sink_origin@, chunk_resolution, pair.point_pairs@),
            sink_cells@ == shared_cells_copied(
                old(sink_cells)@,
                source_cells@,
                source_origin@,
                sink_origin@,
                chunk_resolution,
                pair.point_pairs@.take(i as int),
            ),
        decreases pair.point_pairs@.len() - i,
    {
        let source_pos = *pair.point_pairs[i].source.pos();
        let sink_pos = pair.point_pairs[i].sink;
        proof {
            assert(is_within_chunk(source_origin@, chunk_resolution, pair.point_pairs@[i as int].source@));
        }
        let source_index = cell_index(source_origin, chunk_resolution, source_pos);
        let sink_index = cell_index(sink_origin, chunk_resolution, sink_pos);
        let source_cell = source_cells[source_index];
        sink_cells.set(sink_index, source_cell);
        proof {
            assert(pair.point_pairs@.take(i + 1).drop_last() =~= pair.point_pairs@.take(i as int));
        }
        i = i + 1;
    }
    proof {
        assert(pair.point_pairs@.take(pair.point_pairs@.len() as int) =~= pair.point_pairs@);
    }

    // Sink chunk now has most recent changes from upstream.
    pair.last_upstream_edge_version_known_downstream = source_owned_edge_version;
    true
}

/// The number of cells after copying is the number before.
proof fn lemma_shared_cells_copied_len(
    sink: Seq<Material>,
    source: Seq<Material>,
    source_origin: GridPoint3,
    sink_origin: GridPoint3,
    chunk_resolution: [GridCoord; 3],
    pairs: Seq<PointPair>,
)
    requires
        sink.len() == chunk_cell_count(chunk_resolution),
        pairs_within_chunks(source_origin, sink_origin, chunk_resolution, pairs),
    ensures
        shared_cells_copied(sink, source, source_origin, sink_origin, chunk_resolution, pairs).len() == sink.len(),
    decreases pairs.len(),
{
    if pairs.len() > 0 {
        let rest = pairs.drop_last();
        assert(pairs_within_chunks(source_origin, sink_origin, chunk_resolution, rest)) by {
            assert forall|k: int| 0 <= k < rest.len() implies {
                &&& is_within_chunk(source_origin, chunk_resolution, #[trigger] rest[k].source@)
                &&& is_within_chunk(sink_origin, chunk_resolution, rest[k].sink)
            } by {
                assert(rest[k] == pairs[k]);
            }
        }
        lemma_shared_cells_copied_len(sink, source, source_origin, sink_origin, chunk_resolution, rest);
        let n = pairs.len() - 1;
        assert(is_within_chunk(source_origin, chunk_resolution, pairs[n].source@));
        lemma_cell_index_bounds(sink_origin, chunk_resolution, pairs[n].sink);
    }
}

/// Whether no two loaded chunks have the same origin.
pub open spec fn origins_distinct(chunks: Seq<Chunk>) -> bool {
    forall|i: int, j: int|
        0 <= i < chunks.len() && 0 <= j < chunks.len() && i != j ==> #[trigger] chunks[i].origin
            != #[trigger] chunks[j].origin
}

/// Whether no two entries of `pairs` are for the same pair of chunks.
pub open spec fn pair_keys_distinct(pairs: Seq<(ChunkPairOrigins, ChunkPair)>) -> bool {
    forall|p: int, q: int|
        0 <= p < pairs.len() && 0 <= q < pairs.len() && p != q ==> #[trigger] pairs[p].0 != #[trigger] pairs[q].0
}

/// Whether the chunk at `origin` is loaded.
pub open spec fn is_loaded(chunks: Seq<Chunk>, origin: ChunkOrigin) -> bool {
    exists|i: int| 0 <= i < chunks.len() && #[trigger] chunks[i].origin == origin
}

/// Where the chunk at `origin` is among `chunks`, if it is loaded.
pub open spec fn chunk_index(chunks: Seq<Chunk>, origin: ChunkOrigin) -> int {
    choose|i: int| 0 <= i < chunks.len() && #[trigger] chunks[i].origin == origin
}

/// The key of the pair of chunks `source` and `sink`.
pub open spec fn pair_key(source: ChunkOrigin, sink: ChunkOrigin) -> ChunkPairOrigins {
    ChunkPairOrigins { source, sink }
}

/// Whether `pairs` has an entry for chunks `source` and `sink`.
pub open spec fn has_pair(pairs: Seq<(ChunkPairOrigins, ChunkPair)>, source: ChunkOrigin, sink: ChunkOrigin) -> bool {
    exists|p: int| 0 <= p < pairs.len() && #[trigger] pairs[p].0 == pair_key(source, sink)
}

/// Where the entry for chunks `source` and `sink` is among `pairs`, if
/// there is one.
pub open spec fn pair_index(pairs: Seq<(ChunkPairOrigins, ChunkPair)>, source: ChunkOrigin, sink: ChunkOrigin) -> int {
    choose|p: int| 0 <= p < pairs.len() && #[trigger] pairs[p].0 == pair_key(source, sink)
}

/// Whether `o` is among the first `k` of `origins`.
pub open spec fn listed_before(origins: Seq<ChunkOrigin>, k: int, o: ChunkOrigin) -> bool {
    exists|t: int| 0 <= t < k && #[trigger] origins[t] == o
}

/// Whether pushing from the chunk at `source` copies cells into the chunk
/// `sink`: it is another chunk, among the source's downstream neighbors,
/// and their pair does not yet record the source's version.
pub open spec fn push_reaches(
    chunks: Seq<Chunk>,
    pairs: Seq<(ChunkPairOrigins, ChunkPair)>,
    source: ChunkOrigin,
    sink: Chunk,
) -> bool {
    let from = chunks[chunk_index(chunks, source)];
    &&& sink.origin != source
    &&& listed_before(from.downstream_origins(), from.downstream_origins().len() as int, sink.origin)
    &&& pairs[pair_index(pairs, source, sink.origin)].1.last_upstream_edge_version_known_downstream
        != from.owned_edge_version
}

/// Whether a push from the chunk at `source` brings the pair of chunks
/// `key` up to date: it is the pair of the source and a loaded
/// downstream neighbor.
pub open spec fn push_updates_pair(chunks: Seq<Chunk>, source: ChunkOrigin, key: ChunkPairOrigins) -> bool {
    let from = chunks[chunk_index(chunks, source)];
    &&& key.source == source
    &&& key.sink != source
    &&& is_loaded(chunks, key.sink)
    &&& listed_before(from.downstream_origins(), from.downstream_origins().len() as int, key.sink)
}

/// What a push needs: distinct chunks and pairs, the source loaded,
/// every chunk holding a full set of cells, and a pair, whose cells lie in
/// both chunks, for the source and each of its loaded downstream
/// neighbors.
pub open spec fn can_push(
    chunks: Seq<Chunk>,
    pairs: Seq<(ChunkPairOrigins, ChunkPair)>,
    source: ChunkOrigin,
    chunk_resolution: [GridCoord; 3],
) -> bool {
    &&& origins_distinct(chunks)
    &&& pair_keys_distinct(pairs)
    &&& push_ready(chunks, pairs, source, chunk_resolution)
}

/// What a push needs besides distinct chunks and pairs; see `can_push`.
pub open spec fn push_ready(
    chunks: Seq<Chunk>,
    pairs: Seq<(ChunkPairOrigins, ChunkPair)>,
    source: ChunkOrigin,
    chunk_resolution: [GridCoord; 3],
) -> bool {
    let from = chunks[chunk_index(chunks, source)];
    &&& is_loaded(chunks, source)
    &&& chunk_cell_count(chunk_resolution) <= usize::MAX
    &&& chunk_cell_count(chunk_resolution) <= i64::MAX
    &&& forall|j: int| 0 <= j < chunks.len() ==> (#[trigger] chunks[j]).cells@.len() == chunk_cell_count(chunk_resolution)
    &&& forall|j: int|
        0 <= j < chunks.len() && chunks[j].origin != source && listed_before(
            from.downstream_origins(),
            from.downstream_origins().len() as int,
            (#[trigger] chunks[j]).origin,
        ) ==> {
            &&& has_pair(pairs, source, chunks[j].origin)
            &&& pairs_within_chunks(
                source@,
                chunks[j].origin@,
                chunk_resolution,
                pairs[pair_index(pairs, source, chunks[j].origin)].1.point_pairs@,
            )
        }
}

/// What pushing the shared cells of the chunk at `source_chunk_origin`
/// does: `chunks1` and `pairs1` are `chunks0` and `pairs0` after the push.
pub open spec fn push_result(
    chunks0: Seq<Chunk>,
    pairs0: Seq<(ChunkPairOrigins, ChunkPair)>,
    chunks1: Seq<Chunk>,
    pairs1: Seq<(ChunkPairOrigins, ChunkPair)>,
    source_chunk_origin: ChunkOrigin,
    chunk_resolution: [GridCoord; 3],
) -> bool {
    &&& chunks1.len() == chunks0.len()
    &&& forall|j: int|
        0 <= j < chunks0.len() ==> {
            let before = #[trigger] chunks0[j];
            let after = chunks1[j];
            let reached = push_reaches(chunks0, pairs0, source_chunk_origin, before);
            &&& after.origin == before.origin
            &&& after.chunk_resolution == before.chunk_resolution
            &&& after.owned_edge_version == before.owned_edge_version
            &&& after.upstream_neighbors@ == before.upstream_neighbors@
            &&& after.downstream_neighbors@ == before.downstream_neighbors@
            &&& after.is_view_dirty == (before.is_view_dirty || reached)
            &&& after.cells@ == if reached {
                shared_cells_copied(
                    before.cells@,
                    chunks0[chunk_index(chunks0, source_chunk_origin)].cells@,
                    source_chunk_origin@,
                    before.origin@,
                    chunk_resolution,
                    pairs0[pair_index(pairs0, source_chunk_origin, before.origin)].1.point_pairs@,
                )
            } else {
                before.cells@
            }
        }
    &&& pairs1.len() == pairs0.len()
    &&& forall|p: int|
        0 <= p < pairs0.len() ==> {
            let before = #[trigger] pairs0[p];
            let after = pairs1[p];
            &&& after.0 == before.0
            &&& after.1.point_pairs@ == before.1.point_pairs@
            &&& after.1.last_upstream_edge_version_known_downstream == if push_updates_pair(
                chunks0,
                source_chunk_origin,
                before.0,
            ) {
                chunks0[chunk_index(chunks0, source_chunk_origin)].owned_edge_version
            } else {
                before.1.last_upstream_edge_version_known_downstream
            }
        }
}

/// Copies the cells that the chunk at `source_chunk_origin` owns and
/// shares into each of its loaded downstream neighbors whose copies are
/// out of date (see `sync_shared_cells`), and marks the view of each
/// neighbor it copied into as dirty. Neighbors that are not loaded are
/// skipped; their pairs record that they are behind.
pub fn push_shared_cells_for_chunk(
    chunks: &mut Vec<Chunk>,
    chunk_pairs: &mut Vec<(ChunkPairOrigins, ChunkPair)>,
    source_chunk_origin: ChunkOrigin,
    chunk_resolution: [GridCoord; 3],
)
    requires
        can_push(old(chunks)@, old(chunk_pairs)@, source_chunk_origin, chunk_resolution),
    ensures
        push_result(old(chunks)@, old(chunk_pairs)@, final(chunks)@, final(chunk_pairs)@, source_chunk_origin, chunk_resolution),
{
    let ghost chunks0 = chunks@;
    let ghost pairs0 = chunk_pairs@;
    let s: usize = match find_chunk(chunks, source_chunk_origin) {
        Some(i) => i,
        None => {
            proof {
                assert(false);
            }
            0
        },
    };
    proof {
        assert(s == chunk_index(chunks0, source_chunk_origin));
    }
    let ghost src = chunks0[s as int];
    let ghost ds = src.downstream_origins();
    let ghost v = src.owned_edge_version;
    let n = chunks[s].downstream_neighbors.len();
    let mut k: usize = 0;
    while k < n
        invariant
            0 <= k <= n,
            n == ds.len(),
            s < chunks0.len(),
            s == chunk_index(chunks0, source_chunk_origin),
            chunks0[s as int].origin == source_chunk_origin,
            src == chunks0[s as int],
            ds == src.downstream_origins(),
            v == src.owned_edge_version,
            can_push(chunks0, pairs0, source_chunk_origin, chunk_resolution),
            chunks@.len() == chunks0.len(),
            chunk_pairs@.len() == pairs0.len(),
            chunks@[s as int] == chunks0[s as int],
            forall|j: int|
                0 <= j < chunks0.len() ==> {
                    let before = #[trigger] chunks0[j];
                    let now = chunks@[j];
                    let reached = before.origin != source_chunk_origin && listed_before(ds, k as int, before.origin)
                        && pairs0[pair_index(pairs0, source_chunk_origin, before.origin)].1.last_upstream_edge_version_known_downstream
                        != v;
                    &&& now.origin == before.origin
                    &&& now.chunk_resolution == before.chunk_resolution
                    &&& now.owned_edge_version == before.owned_edge_version
                    &&& now.upstream_neighbors@ == before.upstream_neighbors@
                    &&& now.downstream_neighbors@ == before.downstream_neighbors@
                    &&& now.is_view_dirty == (before.is_view_dirty || reached)
                    &&& now.cells@ == if reached {
                        shared_cells_copied(
                            before.cells@,
                            src.cells@,
                            source_chunk_origin@,
                            before.origin@,
                            chunk_resolution,
                            pairs0[pair_index(pairs0, source_chunk_origin, before.origin)].1.point_pairs@,
                        )
                    } else {
                        before.cells@
                    }
                },
            forall|p: int|
                0 <= p < pairs0.len() ==> {
                    let before = #[trigger] pairs0[p];
                    let now = chunk_pairs@[p];
                    let updated = before.0.source == source_chunk_origin && before.0.sink != source_chunk_origin
                        && is_loaded(chunks0, before.0.sink) && listed_before(ds, k as int, before.0.sink);
                    &&& now.0 == before.0
                    &&& now.1.point_pairs@ == before.1.point_pairs@
                    &&& now.1.last_upstream_edge_version_known_downstream == if updated {
                        v
                    } else {
                        before.1.last_upstream_edge_version_known_downstream
                    }
                },
        decreases n - k,
    {
        let d = chunks[s].downstream_neighbors[k].origin;
        proof {
            assert(d == ds[k as int]);
            assert forall|o: ChunkOrigin| #[trigger] listed_before(ds, k + 1, o) == (listed_before(ds, k as int, o) || o == d) by {
                if listed_before(ds, k + 1, o) {
                    let t = choose|t: int| 0 <= t < k + 1 && #[trigger] ds[t] == o;
                    if t < k {
                        assert(listed_before(ds, k as int, o));
                    }
                }
                if listed_before(ds, k as int, o) {
                    let t = choose|t: int| 0 <= t < k && #[trigger] ds[t] == o;
                    assert(0 <= t < k + 1 && ds[t] == o);
                }
                if o == d {
                    assert(ds[k as int] == o);
                }
            }
        }
        match find_chunk(chunks, d) {
            None => {
                proof {
                    assert(!is_loaded(chunks0, d)) by {
                        if is_loaded(chunks0, d) {
                            let i = choose|i: int| 0 <= i < chunks0.len() && #[trigger] chunks0[i].origin == d;
                            assert(chunks@[i].origin == d);
                        }
                    }
                }
            },
            Some(j) => {
                if j != s {
                    proof {
                        assert(chunks0[j as int].origin == d);
                        assert(d != source_chunk_origin);
                        assert(listed_before(ds, ds.len() as int, d)) by {
                            assert(ds[k as int] == d);
                        }
                        assert(has_pair(pairs0, source_chunk_origin, chunks0[j as int].origin));
                    }
                    let key = ChunkPairOrigins { source: source_chunk_origin, sink: d };
                    let p: usize = match find_chunk_pair(chunk_pairs, key) {
                        Some(p) => p,
                        None => {
                            proof {
                                let q = choose|q: int| 0 <= q < pairs0.len() && #[trigger] pairs0[q].0 == pair_key(source_chunk_origin, d);
                                assert(chunk_pairs@[q].0 == key);
                            }
                            0
                        },
                    };
                    proof {
                        assert(pairs0[p as int].0 == pair_key(source_chunk_origin, d));
                        let q = pair_index(pairs0, source_chunk_origin, d);
                        assert(0 <= q < pairs0.len() && pairs0[q].0 == pair_key(source_chunk_origin, d));
                        assert(q == p);
                    }
                    proof {
                        let before = chunks0[j as int];
                        assert(before.cells@.len() == chunk_cell_count(chunk_resolution));
                        assert(pairs_within_chunks(
                            source_chunk_origin@,
                            before.origin@,
                            chunk_resolution,
                            pairs0[p as int].1.point_pairs@,
                        ));
                        lemma_shared_cells_copied_len(
                            before.cells@,
                            src.cells@,
                            source_chunk_origin@,
                            before.origin@,
                            chunk_resolution,
                            pairs0[p as int].1.point_pairs@,
                        );
                        assert(chunks@[j as int].cells@.len() == chunk_cell_count(chunk_resolution));
                    }
                    let ghost chunks_before = chunks@;
                    let ghost pairs_before = chunk_pairs@;
                    let (pair_key_value, mut pair) = chunk_pairs.remove(p);
                    let mut sink = chunks.remove(j);
                    let src_i: usize = if s > j { s - 1 } else { s };
                    proof {
                        assert(chunks@[src_i as int] == src);
                    }
                    let copied = sync_shared_cells(
                        &mut pair,
                        &chunks[src_i].origin,
                        &chunks[src_i].cells,
                        chunks[src_i].owned_edge_version,
                        &sink.origin,
                        &mut sink.cells,
                        chunk_resolution,
                    );
                    if copied {
                        // The sink chunk's view needs rebuilding.
                        sink.is_view_dirty = true;
                    }
                    chunks.insert(j, sink);
                    chunk_pairs.insert(p, (pair_key_value, pair));
                    proof {
                        assert(chunks@ =~= chunks_before.update(j as int, sink));
                        assert(chunk_pairs@ =~= pairs_before.update(p as int, (pair_key_value, pair)));
                    }
                }
            },
        }
        k = k + 1;
    }
}

/// Whether pulling into the chunk at `sink` copies cells from its
/// upstream neighbor `upstream[t]`: it is another chunk, loaded, listed
/// there for the first time, and their pair does not yet record its
/// version.
pub open spec fn pull_copies(
    chunks: Seq<Chunk>,
    pairs: Seq<(ChunkPairOrigins, ChunkPair)>,
    sink: ChunkOrigin,
    upstream: Seq<ChunkOrigin>,
    t: int,
) -> bool {
    let u = upstream[t];
    &&& u != sink
    &&& is_loaded(chunks, u)
    &&& !listed_before(upstream, t, u)
    &&& pairs[pair_index(pairs, u, sink)].1.last_upstream_edge_version_known_downstream
        != chunks[chunk_index(chunks, u)].owned_edge_version
}

/// The sink chunk's cells `cells` after pulling from the first `k` of its
/// upstream neighbors `upstream`, in order.
pub open spec fn pulled_cells(
    chunks: Seq<Chunk>,
    pairs: Seq<(ChunkPairOrigins, ChunkPair)>,
    sink: ChunkOrigin,
    upstream: Seq<ChunkOrigin>,
    k: int,
    cells: Seq<Material>,
    chunk_resolution: [GridCoord; 3],
) -> Seq<Material>
    decreases k,
{
    if k <= 0 {
        cells
    } else {
        let before = pulled_cells(chunks, pairs, sink, upstream, k - 1, cells, chunk_resolution);
        let u = upstream[k - 1];
        if pull_copies(chunks, pairs, sink, upstream, k - 1) {
            shared_cells_copied(
                before,
                chunks[chunk_index(chunks, u)].cells@,
                u@,
                sink@,
                chunk_resolution,
                pairs[pair_index(pairs, u, sink)].1.point_pairs@,
            )
        } else {
            before
        }
    }
}

/// What a pull needs: distinct chunks and pairs, the sink loaded, every
/// chunk holding a full set of cells, and a pair, whose cells lie in both
/// chunks, for each loaded upstream neighbor of the sink and the sink.
pub open spec fn can_pull(
    chunks: Seq<Chunk>,
    pairs: Seq<(ChunkPairOrigins, ChunkPair)>,
    sink: ChunkOrigin,
    chunk_resolution: [GridCoord; 3],
) -> bool {
    &&& origins_distinct(chunks)
    &&& pair_keys_distinct(pairs)
    &&& pull_ready(chunks, pairs, sink, chunk_resolution)
}

/// What a pull needs besides distinct chunks and pairs; see `can_pull`.
pub open spec fn pull_ready(
    chunks: Seq<Chunk>,
    pairs: Seq<(ChunkPairOrigins, ChunkPair)>,
    sink: ChunkOrigin,
    chunk_resolution: [GridCoord; 3],
) -> bool {
    let into = chunks[chunk_index(chunks, sink)];
    &&& is_loaded(chunks, sink)
    &&& chunk_cell_count(chunk_resolution) <= usize::MAX
    &&& chunk_cell_count(chunk_resolution) <= i64::MAX
    &&& forall|j: int| 0 <= j < chunks.len() ==> (#[trigger] chunks[j]).cells@.len() == chunk_cell_count(chunk_resolution)
    &&& forall|j: int|
        0 <= j < chunks.len() && chunks[j].origin != sink && listed_before(
            into.upstream_origins(),
            into.upstream_origins().len() as int,
            (#[trigger] chunks[j]).origin,
        ) ==> {
            &&& has_pair(pairs, chunks[j].origin, sink)
            &&& pairs_within_chunks(
                chunks[j].origin@,
                sink@,
                chunk_resolution,
                pairs[pair_index(pairs, chunks[j].origin, sink)].1.point_pairs@,
            )
        }
}

/// What pulling shared cells into the chunk at `sink_chunk_origin` does:
/// `chunks1` and `pairs1` are `chunks0` and `pairs0` after the pull.
pub open spec fn pull_result(
    chunks0: Seq<Chunk>,
    pairs0: Seq<(ChunkPairOrigins, ChunkPair)>,
    chunks1: Seq<Chunk>,
    pairs1: Seq<(ChunkPairOrigins, ChunkPair)>,
    sink_chunk_origin: ChunkOrigin,
    chunk_resolution: [GridCoord; 3],
) -> bool {
    let s = chunk_index(chunks0, sink_chunk_origin);
    let before = chunks0[s];
    let after = chunks1[s];
    let upstream = before.upstream_origins();
    &&& chunks1.len() == chunks0.len()
    &&& forall|j: int| 0 <= j < chunks0.len() && j != s ==> #[trigger] chunks1[j] == chunks0[j]
    &&& after.origin == before.origin
    &&& after.chunk_resolution == before.chunk_resolution
    &&& after.owned_edge_version == before.owned_edge_version
    &&& after.upstream_neighbors@ == before.upstream_neighbors@
    &&& after.downstream_neighbors@ == before.downstream_neighbors@
    &&& after.is_view_dirty == (before.is_view_dirty || exists|t: int|
        0 <= t < upstream.len() && #[trigger] pull_copies(chunks0, pairs0, sink_chunk_origin, upstream, t))
    &&& after.cells@ == pulled_cells(
        chunks0,
        pairs0,
        sink_chunk_origin,
        upstream,
        upstream.len() as int,
        before.cells@,
        chunk_resolution,
    )
    &&& pairs1.len() == pairs0.len()
    &&& forall|p: int|
        0 <= p < pairs0.len() ==> {
            let before_pair = #[trigger] pairs0[p];
            let after_pair = pairs1[p];
            &&& after_pair.0 == before_pair.0
            &&& after_pair.1.point_pairs@ == before_pair.1.point_pairs@
            &&& after_pair.1.last_upstream_edge_version_known_downstream == if before_pair.0.sink == sink_chunk_origin
                && before_pair.0.source != sink_chunk_origin && is_loaded(chunks0, before_pair.0.source)
                && listed_before(upstream, upstream.len() as int, before_pair.0.source) {
                chunks0[chunk_index(chunks0, before_pair.0.source)].owned_edge_version
            } else {
                before_pair.1.last_upstream_edge_version_known_downstream
            }
        }
}

/// Copies into the chunk at `sink_chunk_origin` the shared cells of each
/// of its loaded upstream neighbors whose newer version it does not have
/// (see `sync_shared_cells`), in the order the neighbors are listed, and
/// marks its view as dirty if anything was copied. Neighbors that are
/// not loaded are skipped.
pub fn pull_shared_cells_for_chunk(
    chunks: &mut Vec<Chunk>,
    chunk_pairs: &mut Vec<(ChunkPairOrigins, ChunkPair)>,
    sink_chunk_origin: ChunkOrigin,
    chunk_resolution: [GridCoord; 3],
)
    requires
        can_pull(old(chunks)@, old(chunk_pairs)@, sink_chunk_origin, chunk_resolution),
    ensures
        pull_result(old(chunks)@, old(chunk_pairs)@, final(chunks)@, final(chunk_pairs)@, sink_chunk_origin, chunk_resolution),
{
    let ghost chunks0 = chunks@;
    let ghost pairs0 = chunk_pairs@;
    let s: usize = match find_chunk(chunks, sink_chunk_origin) {
        Some(i) => i,
        None => {
            proof {
                assert(false);
            }
            0
        },
    };
    proof {
        assert(s == chunk_index(chunks0, sink_chunk_origin));
    }
    // Take the sink chunk out while copying into it from other chunks.
    let mut sink_chunk = chunks.remove(s);
    let ghost rest = chunks@;
    let ghost us = sink_chunk.upstream_origins();
    let n = sink_chunk.upstream_neighbors.len();
    let mut sink_chunk_view_dirty = false;
    let mut k: usize = 0;
    while k < n
        invariant
            0 <= k <= n,
            n == us.len(),
            s < chunks0.len(),
            s == chunk_index(chunks0, sink_chunk_origin),
            chunks0[s as int].origin == sink_chunk_origin,
            us == chunks0[s as int].upstream_origins(),
            sink_chunk.upstream_neighbors@ == chunks0[s as int].upstream_neighbors@,
            can_pull(chunks0, pairs0, sink_chunk_origin, chunk_resolution),
            rest == chunks0.remove(s as int),
            chunks@ == rest,
            chunk_pairs@.len() == pairs0.len(),
            sink_chunk.origin == chunks0[s as int].origin,
            sink_chunk.chunk_resolution == chunks0[s as int].chunk_resolution,
            sink_chunk.owned_edge_version == chunks0[s as int].owned_edge_version,
            sink_chunk.downstream_neighbors@ == chunks0[s as int].downstream_neighbors@,
            sink_chunk.is_view_dirty == chunks0[s as int].is_view_dirty,
            sink_chunk_view_dirty == exists|t: int|
                0 <= t < k && #[trigger] pull_copies(chunks0, pairs0, sink_chunk_origin, us, t),
            sink_chunk.cells@ == pulled_cells(
                chunks0,
                pairs0,
                sink_chunk_origin,
                us,
                k as int,
                chunks0[s as int].cells@,
                chunk_resolution,
            ),
            sink_chunk.cells@.len() == chunk_cell_count(chunk_resolution),
            forall|p: int|
                0 <= p < pairs0.len() ==> {
                    let before = #[trigger] pairs0[p];
                    let now = chunk_pairs@[p];
                    &&& now.0 == before.0
                    &&& now.1.point_pairs@ == before.1.point_pairs@
                    &&& now.1.last_upstream_edge_version_known_downstream == if before.0.sink == sink_chunk_origin
                        && before.0.source != sink_chunk_origin && is_loaded(chunks0, before.0.source)
                        && listed_before(us, k as int, before.0.source) {
                        chunks0[chunk_index(chunks0, before.0.source)].owned_edge_version
                    } else {
                        before.1.last_upstream_edge_version_known_downstream
                    }
                },
        decreases n - k,
    {
        let u = sink_chunk.upstream_neighbors[k].origin;
        proof {
            assert(u == us[k as int]);
            assert forall|o: ChunkOrigin| #[trigger] listed_before(us, k + 1, o) == (listed_before(us, k as int, o) || o == u) by {
                if listed_before(us, k + 1, o) {
                    let t = choose|t: int| 0 <= t < k + 1 && #[trigger] us[t] == o;
                    if t < k {
                        assert(listed_before(us, k as int, o));
                    }
                }
                if listed_before(us, k as int, o) {
                    let t = choose|t: int| 0 <= t < k && #[trigger] us[t] == o;
                    assert(0 <= t < k + 1 && us[t] == o);
                }
                if o == u {
                    assert(us[k as int] == o);
                }
            }
            assert(pulled_cells(chunks0, pairs0, sink_chunk_origin, us, k + 1, chunks0[s as int].cells@, chunk_resolution)
                == if pull_copies(chunks0, pairs0, sink_chunk_origin, us, k as int) {
                shared_cells_copied(
                    pulled_cells(chunks0, pairs0, sink_chunk_origin, us, k as int, chunks0[s as int].cells@, chunk_resolution),
                    chunks0[chunk_index(chunks0, u)].cells@,
                    u@,
                    sink_chunk_origin@,
                    chunk_resolution,
                    pairs0[pair_index(pairs0, u, sink_chunk_origin)].1.point_pairs@,
                )
            } else {
                pulled_cells(chunks0, pairs0, sink_chunk_origin, us, k as int, chunks0[s as int].cells@, chunk_resolution)
            });
        }
        let ghost dirty_before = sink_chunk_view_dirty;
        match find_chunk(chunks, u) {
            None => {
                // No worries; the chunk isn't loaded, or is the sink itself.
                proof {
                    assert(!is_loaded(chunks0, u) || u == sink_chunk_origin) by {
                        if is_loaded(chunks0, u) && u != sink_chunk_origin {
                            let i = choose|i: int| 0 <= i < chunks0.len() && #[trigger] chunks0[i].origin == u;
                            assert(i != s);
                            if i < s {
                                assert(rest[i] == chunks0[i]);
                            } else {
                                assert(rest[i - 1] == chunks0[i]);
                            }
                        }
                    }
                    assert(!pull_copies(chunks0, pairs0, sink_chunk_origin, us, k as int));
                }
            },
            Some(i) => {
                let ghost i0: int = if i < s { i as int } else { i + 1 };
                proof {
                    assert(chunks0[i0] == rest[i as int]);
                    assert(chunks0[i0].origin == u);
                    assert(i0 != s);
                    assert(u != sink_chunk_origin);
                    assert(i0 == chunk_index(chunks0, u)) by {
                        let c = chunk_index(chunks0, u);
                        assert(0 <= c < chunks0.len() && chunks0[c].origin == u);
                    }
                    assert(listed_before(us, us.len() as int, u)) by {
                        assert(us[k as int] == u);
                    }
                    assert(has_pair(pairs0, chunks0[i0].origin, sink_chunk_origin));
                }
                let key = ChunkPairOrigins { source: u, sink: sink_chunk_origin };
                let p: usize = match find_chunk_pair(chunk_pairs, key) {
                    Some(p) => p,
                    None => {
                        proof {
                            let q = choose|q: int| 0 <= q < pairs0.len() && #[trigger] pairs0[q].0 == pair_key(u, sink_chunk_origin);
                            assert(chunk_pairs@[q].0 == key);
                        }
                        0
                    },
                };
                proof {
                    assert(pairs0[p as int].0 == pair_key(u, sink_chunk_origin));
                    let q = pair_index(pairs0, u, sink_chunk_origin);
                    assert(0 <= q < pairs0.len() && pairs0[q].0 == pair_key(u, sink_chunk_origin));
                    assert(q == p);
                    assert(pairs_within_chunks(u@, sink_chunk_origin@, chunk_resolution, pairs0[p as int].1.point_pairs@));
                    lemma_shared_cells_copied_len(
                        sink_chunk.cells@,
                        chunks0[i0].cells@,
                        u@,
                        sink_chunk_origin@,
                        chunk_resolution,
                        pairs0[p as int].1.point_pairs@,
                    );
                    assert(chunks0[i0].cells@.len() == chunk_cell_count(chunk_resolution));
                }
                let ghost pairs_before = chunk_pairs@;
                let (pair_key_value, mut pair) = chunk_pairs.remove(p);
                let copied = sync_shared_cells(
                    &mut pair,
                    &chunks[i].origin,
                    &chunks[i].cells,
                    chunks[i].owned_edge_version,
                    &sink_chunk.origin,
                    &mut sink_chunk.cells,
                    chunk_resolution,
                );
                if copied {
                    sink_chunk_view_dirty = true;
                }
                chunk_pairs.insert(p, (pair_key_value, pair));
                proof {
                    assert(chunk_pairs@ =~= pairs_before.update(p as int, (pair_key_value, pair)));
                    assert(copied == pull_copies(chunks0, pairs0, sink_chunk_origin, us, k as int));
                }
            },
        }
        proof {
            assert(sink_chunk_view_dirty == (dirty_before || pull_copies(chunks0, pairs0, sink_chunk_origin, us, k as int)));
            assert(sink_chunk_view_dirty == exists|t: int|
                0 <= t < k + 1 && #[trigger] pull_copies(chunks0, pairs0, sink_chunk_origin, us, t)) by {
                if pull_copies(chunks0, pairs0, sink_chunk_origin, us, k as int) {
                    assert(0 <= k < k + 1);
                }
                if dirty_before {
                    let t = choose|t: int| 0 <= t < k && #[trigger] pull_copies(chunks0, pairs0, sink_chunk_origin, us, t);
                    assert(0 <= t < k + 1);
                }
            }
        }
        k = k + 1;
    }

    // If we actually updated anything, then mark the sink chunk as having
    // its view out of date.
    if sink_chunk_view_dirty {
        sink_chunk.is_view_dirty = true;
    }

    // Put the sink chunk back.
    chunks.insert(s, sink_chunk);
    proof {
        assert(chunks@ =~= chunks0.update(s as int, sink_chunk));
    }
}

/// Whether `pairs` has an entry for the pair of chunks `key`.
pub open spec fn has_key(pairs: Seq<(ChunkPairOrigins, ChunkPair)>, key: ChunkPairOrigins) -> bool {
    exists|p: int| 0 <= p < pairs.len() && #[trigger] pairs[p].0 == key
}

/// Whether entry `e` is the one added for the `t`th upstream neighbor of
/// the chunk at `origin`: the first neighbor, of those listed, for that
/// pair of chunks.
pub open spec fn is_entry_for_upstream(
    e: (ChunkPairOrigins, ChunkPair),
    origin: ChunkOrigin,
    upstream: Seq<UpstreamNeighbor>,
    t: int,
) -> bool {
    &&& 0 <= t < upstream.len()
    &&& e.0 == pair_key(upstream[t].origin, origin)
    &&& e.1.point_pairs@ == upstream[t].shared_cells@
    &&& e.1.last_upstream_edge_version_known_downstream == 0
    &&& forall|t2: int| 0 <= t2 < t ==> pair_key(#[trigger] upstream[t2].origin, origin) != e.0
}

/// Whether entry `e` is the one added for the `t`th downstream neighbor
/// of the chunk at `origin`: the first neighbor, of those listed after
/// all upstream neighbors, for that pair of chunks.
pub open spec fn is_entry_for_downstream(
    e: (ChunkPairOrigins, ChunkPair),
    origin: ChunkOrigin,
    upstream: Seq<UpstreamNeighbor>,
    downstream: Seq<DownstreamNeighbor>,
    t: int,
) -> bool {
    &&& 0 <= t < downstream.len()
    &&& e.0 == pair_key(origin, downstream[t].origin)
    &&& e.1.point_pairs@ == downstream[t].shared_cells@
    &&& e.1.last_upstream_edge_version_known_downstream == 0
    &&& forall|t2: int| 0 <= t2 < upstream.len() ==> pair_key(#[trigger] upstream[t2].origin, origin) != e.0
    &&& forall|t2: int| 0 <= t2 < t ==> pair_key(origin, #[trigger] downstream[t2].origin) != e.0
}

/// Starts tracking how current the shared cells are between `chunk` and
/// each of its upstream and downstream neighbors, for each pair of chunks
/// not already tracked; a new pair has seen no version yet.
fn ensure_all_chunk_pairs_present_for(chunk_pairs: &mut Vec<(ChunkPairOrigins, ChunkPair)>, chunk: &Chunk)
    ensures
        old(chunk_pairs)@.len() <= final(chunk_pairs)@.len(),
        forall|p: int| 0 <= p < old(chunk_pairs)@.len() ==> #[trigger] final(chunk_pairs)@[p] == old(chunk_pairs)@[p],
        pair_keys_distinct(old(chunk_pairs)@) ==> pair_keys_distinct(final(chunk_pairs)@),
        forall|t: int| 0 <= t < chunk.upstream_neighbors@.len() ==> has_key(final(chunk_pairs)@, pair_key(#[trigger] chunk.upstream_neighbors@[t].origin, chunk.origin)),
        forall|t: int| 0 <= t < chunk.downstream_neighbors@.len() ==> has_key(final(chunk_pairs)@, pair_key(chunk.origin, #[trigger] chunk.downstream_neighbors@[t].origin)),
        forall|p: int|
            old(chunk_pairs)@.len() <= p < final(chunk_pairs)@.len() ==> {
                &&& !has_key(old(chunk_pairs)@, (#[trigger] final(chunk_pairs)@[p]).0)
                &&& (exists|t: int| is_entry_for_upstream(final(chunk_pairs)@[p], chunk.origin, chunk.upstream_neighbors@, t))
                    || (exists|t: int| is_entry_for_downstream(final(chunk_pairs)@[p], chunk.origin, chunk.upstream_neighbors@, chunk.downstream_neighbors@, t))
            },
{
    let origin = chunk.origin;
    let upstream = &chunk.upstream_neighbors;
    let downstream = &chunk.downstream_neighbors;
    let ghost pairs0 = chunk_pairs@;
    let ghost n0 = pairs0.len() as int;
    // For each added entry, the neighbor it was added for.
    let ghost mut tags: Seq<int> = Seq::empty();
    let mut t: usize = 0;
    while t < upstream.len()
        invariant
            t <= upstream@.len(),
            origin == chunk.origin,
            upstream@ == chunk.upstream_neighbors@,
            downstream@ == chunk.downstream_neighbors@,
            n0 == pairs0.len(),
            chunk_pairs@.len() == n0 + tags.len(),
            forall|p: int| 0 <= p < n0 ==> #[trigger] chunk_pairs@[p] == pairs0[p],
            pair_keys_distinct(pairs0) ==> pair_keys_distinct(chunk_pairs@),
            forall|t1: int| 0 <= t1 < t ==> has_key(chunk_pairs@, pair_key(#[trigger] upstream@[t1].origin, origin)),
            forall|i: int| 0 <= i < tags.len() ==> !has_key(pairs0, (#[trigger] chunk_pairs@[n0 + i]).0),
            forall|i: int| 0 <= i < tags.len() ==> 0 <= #[trigger] tags[i] < t,
            forall|i: int|
                0 <= i < tags.len() ==> is_entry_for_upstream(#[trigger] chunk_pairs@[n0 + i], origin, upstream@, tags[i]),
        decreases upstream@.len() - t,
    {
        let key = ChunkPairOrigins { source: upstream[t].origin, sink: origin };
        let found = find_chunk_pair(chunk_pairs, key);
        let ghost before = chunk_pairs@;
        match found {
            Some(_) => {},
            None => {
                let point_pairs = upstream[t].shared_cells.clone();
                proof {
                    assert(point_pairs@ =~= upstream@[t as int].shared_cells@);
                }
                chunk_pairs.push((key, ChunkPair { point_pairs, last_upstream_edge_version_known_downstream: 0 }));
                proof {
                    let n = before.len() as int;
                    assert(!has_key(pairs0, key)) by {
                        if has_key(pairs0, key) {
                            let q = choose|q: int| 0 <= q < pairs0.len() && #[trigger] pairs0[q].0 == key;
                            assert(before[q].0 == key);
                        }
                    }
                    assert forall|t2: int| 0 <= t2 < t implies pair_key(#[trigger] upstream@[t2].origin, origin) != key by {
                        if pair_key(upstream@[t2].origin, origin) == key {
                            let q = choose|q: int| 0 <= q < before.len() && #[trigger] before[q].0 == pair_key(upstream@[t2].origin, origin);
                        }
                    }
                    assert(is_entry_for_upstream(chunk_pairs@[n], origin, upstream@, t as int));
                    tags = tags.push(t as int);
                    assert forall|i: int| 0 <= i < tags.len() implies {
                        &&& !has_key(pairs0, (#[trigger] chunk_pairs@[n0 + i]).0)
                        &&& 0 <= tags[i] < t + 1
                        &&& is_entry_for_upstream(chunk_pairs@[n0 + i], origin, upstream@, tags[i])
                    } by {
                        if n0 + i < n {
                            assert(chunk_pairs@[n0 + i] == before[n0 + i]);
                        }
                    }
                    if pair_keys_distinct(pairs0) {
                        assert forall|p: int, q: int|
                            0 <= p < chunk_pairs@.len() && 0 <= q < chunk_pairs@.len() && p != q
                            implies #[trigger] chunk_pairs@[p].0 != #[trigger] chunk_pairs@[q].0 by {
                            if p == n {
                                assert(before[q] == chunk_pairs@[q]);
                            } else if q == n {
                                assert(before[p] == chunk_pairs@[p]);
                            } else {
                                assert(before[p] == chunk_pairs@[p] && before[q] == chunk_pairs@[q]);
                            }
                        }
                    }
                }
            },
        }
        proof {
            assert forall|t1: int| 0 <= t1 < t + 1 implies has_key(chunk_pairs@, pair_key(#[trigger] upstream@[t1].origin, origin)) by {
                if t1 < t {
                    let q = choose|q: int| 0 <= q < before.len() && #[trigger] before[q].0 == pair_key(upstream@[t1].origin, origin);
                    assert(chunk_pairs@[q] == before[q]);
                } else {
                    if chunk_pairs@.len() == before.len() {
                    } else {
                        assert(chunk_pairs@[before.len() as int].0 == pair_key(upstream@[t1].origin, origin));
                    }
                }
            }
        }
        t = t + 1;
    }
    let ghost n1 = chunk_pairs@.len() as int;
    let ghost pairs_up = chunk_pairs@;
    let ghost up_tags = tags;
    let ghost mut dtags: Seq<int> = Seq::empty();
    let mut t: usize = 0;
    while t < downstream.len()
        invariant
            t <= downstream@.len(),
            origin == chunk.origin,
            upstream@ == chunk.upstream_neighbors@,
            downstream@ == chunk.downstream_neighbors@,
            n0 == pairs0.len(),
            n1 == n0 + up_tags.len(),
            pairs_up.len() == n1,
            chunk_pairs@.len() == n1 + dtags.len(),
            forall|p: int| 0 <= p < n1 ==> #[trigger] chunk_pairs@[p] == pairs_up[p],
            forall|p: int| 0 <= p < n0 ==> #[trigger] pairs_up[p] == pairs0[p],
            pair_keys_distinct(pairs0) ==> pair_keys_distinct(chunk_pairs@),
            forall|t1: int| 0 <= t1 < upstream@.len() ==> has_key(pairs_up, pair_key(#[trigger] upstream@[t1].origin, origin)),
            forall|t1: int| 0 <= t1 < t ==> has_key(chunk_pairs@, pair_key(origin, #[trigger] downstream@[t1].origin)),
            forall|i: int|
                0 <= i < up_tags.len() ==> {
                    &&& !has_key(pairs0, (#[trigger] pairs_up[n0 + i]).0)
                    &&& is_entry_for_upstream(pairs_up[n0 + i], origin, upstream@, up_tags[i])
                },
            forall|i: int| 0 <= i < dtags.len() ==> !has_key(pairs_up, (#[trigger] chunk_pairs@[n1 + i]).0),
            forall|i: int| 0 <= i < dtags.len() ==> 0 <= #[trigger] dtags[i] < t,
            forall|i: int|
                0 <= i < dtags.len() ==> is_entry_for_downstream(
                    #[trigger] chunk_pairs@[n1 + i],
                    origin,
                    upstream@,
                    downstream@,
                    dtags[i],
                ),
        decreases downstream@.len() - t,
    {
        let key = ChunkPairOrigins { source: origin, sink: downstream[t].origin };
        let found = find_chunk_pair(chunk_pairs, key);
        let ghost before = chunk_pairs@;
        match found {
            Some(_) => {},
            None => {
                let point_pairs = downstream[t].shared_cells.clone();
                proof {
                    assert(point_pairs@ =~= downstream@[t as int].shared_cells@);
                }
                chunk_pairs.push((key, ChunkPair { point_pairs, last_upstream_edge_version_known_downstream: 0 }));
                proof {
                    let n = before.len() as int;
                    assert(!has_key(pairs_up, key)) by {
                        if has_key(pairs_up, key) {
                            let q = choose|q: int| 0 <= q < pairs_up.len() && #[trigger] pairs_up[q].0 == key;
                            assert(before[q].0 == key);
                        }
                    }
                    assert forall|t2: int| 0 <= t2 < upstream@.len() implies pair_key(#[trigger] upstream@[t2].origin, origin) != key by {
                        if pair_key(upstream@[t2].origin, origin) == key {
                            let q = choose|q: int| 0 <= q < pairs_up.len() && #[trigger] pairs_up[q].0 == pair_key(upstream@[t2].origin, origin);
                        }
                    }
                    assert forall|t2: int| 0 <= t2 < t implies pair_key(origin, #[trigger] downstream@[t2].origin) != key by {
                        if pair_key(origin, downstream@[t2].origin) == key {
                            let q = choose|q: int| 0 <= q < before.len() && #[trigger] before[q].0 == pair_key(origin, downstream@[t2].origin);
                        }
                    }
                    assert(is_entry_for_downstream(chunk_pairs@[n], origin, upstream@, downstream@, t as int));
                    dtags = dtags.push(t as int);
                    assert forall|i: int| 0 <= i < dtags.len() implies {
                        &&& !has_key(pairs_up, (#[trigger] chunk_pairs@[n1 + i]).0)
                        &&& 0 <= dtags[i] < t + 1
                        &&& is_entry_for_downstream(chunk_pairs@[n1 + i], origin, upstream@, downstream@, dtags[i])
                    } by {
                        if n1 + i < n {
                            assert(chunk_pairs@[n1 + i] == before[n1 + i]);
                        }
                    }
                    if pair_keys_distinct(pairs0) {
                        assert forall|p: int, q: int|
                            0 <= p < chunk_pairs@.len() && 0 <= q < chunk_pairs@.len() && p != q
                            implies #[trigger] chunk_pairs@[p].0 != #[trigger] chunk_pairs@[q].0 by {
                            if p == n {
                                assert(before[q] == chunk_pairs@[q]);
                            } else if q == n {
                                assert(before[p] == chunk_pairs@[p]);
                            } else {
                                assert(before[p] == chunk_pairs@[p] && before[q] == chunk_pairs@[q]);
                            }
                        }
                    }
                }
            },
        }
        proof {
            assert forall|t1: int| 0 <= t1 < t + 1 implies has_key(chunk_pairs@, pair_key(origin, #[trigger] downstream@[t1].origin)) by {
                if t1 < t {
                    let q = choose|q: int| 0 <= q < before.len() && #[trigger] before[q].0 == pair_key(origin, downstream@[t1].origin);
                    assert(chunk_pairs@[q] == before[q]);
                } else {
                    if chunk_pairs@.len() == before.len() {
                    } else {
                        assert(chunk_pairs@[before.len() as int].0 == pair_key(origin, downstream@[t1].origin));
                    }
                }
            }
        }
        t = t + 1;
    }
    proof {
        assert forall|t1: int| 0 <= t1 < upstream@.len() implies has_key(chunk_pairs@, pair_key(#[trigger] upstream@[t1].origin, origin)) by {
            let q = choose|q: int| 0 <= q < pairs_up.len() && #[trigger] pairs_up[q].0 == pair_key(upstream@[t1].origin, origin);
            assert(chunk_pairs@[q] == pairs_up[q]);
        }
        assert forall|p: int| n0 <= p < chunk_pairs@.len() implies {
            &&& !has_key(pairs0, (#[trigger] chunk_pairs@[p]).0)
            &&& (exists|t: int| is_entry_for_upstream(chunk_pairs@[p], origin, upstream@, t))
                || (exists|t: int| is_entry_for_downstream(chunk_pairs@[p], origin, upstream@, downstream@, t))
        } by {
            if p < n1 {
                let i = p - n0;
                assert(chunk_pairs@[p] == pairs_up[n0 + i]);
                assert(is_entry_for_upstream(chunk_pairs@[p], origin, upstream@, up_tags[i]));
            } else {
                let i = p - n1;
                assert(is_entry_for_downstream(chunk_pairs@[n1 + i], origin, upstream@, downstream@, dtags[i]));
                assert(!has_key(pairs0, chunk_pairs@[p].0)) by {
                    if has_key(pairs0, chunk_pairs@[p].0) {
                        let q = choose|q: int| 0 <= q < pairs0.len() && #[trigger] pairs0[q].0 == chunk_pairs@[p].0;
                        assert(pairs_up[q].0 == chunk_pairs@[p].0);
                    }
                }
            }
        }
    }
}

/// Loads `chunk`, and starts tracking how current the cells it shares
/// with each of its neighbors are (see `ensure_all_chunk_pairs_present_for`).
///
/// No chunk may already be loaded at the same origin.
pub fn add_chunk(chunks: &mut Vec<Chunk>, chunk_pairs: &mut Vec<(ChunkPairOrigins, ChunkPair)>, chunk: Chunk)
    requires
        !is_loaded(old(chunks)@, chunk.origin),
    ensures
        final(chunks)@ == old(chunks)@.push(chunk),
        origins_distinct(old(chunks)@) ==> origins_distinct(final(chunks)@),
        old(chunk_pairs)@.len() <= final(chunk_pairs)@.len(),
        forall|p: int| 0 <= p < old(chunk_pairs)@.len() ==> #[trigger] final(chunk_pairs)@[p] == old(chunk_pairs)@[p],
        pair_keys_distinct(old(chunk_pairs)@) ==> pair_keys_distinct(final(chunk_pairs)@),
        forall|t: int|
            0 <= t < chunk.upstream_neighbors@.len() ==> has_key(
                final(chunk_pairs)@,
                pair_key(#[trigger] chunk.upstream_neighbors@[t].origin, chunk.origin),
            ),
        forall|t: int|
            0 <= t < chunk.downstream_neighbors@.len() ==> has_key(
                final(chunk_pairs)@,
                pair_key(chunk.origin, #[trigger] chunk.downstream_neighbors@[t].origin),
            ),
        forall|p: int|
            old(chunk_pairs)@.len() <= p < final(chunk_pairs)@.len() ==> {
                &&& !has_key(old(chunk_pairs)@, (#[trigger] final(chunk_pairs)@[p]).0)
                &&& (exists|t: int|
                    is_entry_for_upstream(final(chunk_pairs)@[p], chunk.origin, chunk.upstream_neighbors@, t)) || (exists|t: int|
                    is_entry_for_downstream(
                        final(chunk_pairs)@[p],
                        chunk.origin,
                        chunk.upstream_neighbors@,
                        chunk.downstream_neighbors@,
                        t,
                    ))
            },
{
    ensure_all_chunk_pairs_present_for(chunk_pairs, &chunk);
    let ghost before = chunks@;
    chunks.push(chunk);
    proof {
        if origins_distinct(before) {
            assert forall|i: int, j: int|
                0 <= i < chunks@.len() && 0 <= j < chunks@.len() && i != j implies #[trigger] chunks@[i].origin
                != #[trigger] chunks@[j].origin by {
                let n = before.len() as int;
                if i == n {
                    assert(chunks@[j] == before[j]);
                } else if j == n {
                    assert(chunks@[i] == before[i]);
                } else {
                    assert(chunks@[i] == before[i] && chunks@[j] == before[j]);
                }
            }
        }
    }
}

/// Whether `key` is the pair of the chunk at `origin` and one of its
/// `upstream` or `downstream` neighbors.
pub open spec fn is_pair_of_neighbor(
    key: ChunkPairOrigins,
    origin: ChunkOrigin,
    upstream: Seq<UpstreamNeighbor>,
    downstream: Seq<DownstreamNeighbor>,
) -> bool {
    ||| exists|t: int| 0 <= t < upstream.len() && key == pair_key(#[trigger] upstream[t].origin, origin)
    ||| exists|t: int| 0 <= t < downstream.len() && key == pair_key(origin, #[trigger] downstream[t].origin)
}

fn is_pair_of_neighbor_exec(
    key: &ChunkPairOrigins,
    origin: ChunkOrigin,
    upstream: &Vec<UpstreamNeighbor>,
    downstream: &Vec<DownstreamNeighbor>,
) -> (b: bool)
    ensures
        b == is_pair_of_neighbor(*key, origin, upstream@, downstream@),
{
    let mut t: usize = 0;
    while t < upstream.len()
        invariant
            t <= upstream@.len(),
            forall|t1: int| 0 <= t1 < t ==> *key != pair_key(#[trigger] upstream@[t1].origin, origin),
        decreases upstream@.len() - t,
    {
        if key.source == upstream[t].origin && key.sink == origin {
            return true;
        }
        t = t + 1;
    }
    let mut t: usize = 0;
    while t < downstream.len()
        invariant
            t <= downstream@.len(),
            forall|t1: int| 0 <= t1 < upstream@.len() ==> *key != pair_key(#[trigger] upstream@[t1].origin, origin),
            forall|t1: int| 0 <= t1 < t ==> *key != pair_key(origin, #[trigger] downstream@[t1].origin),
        decreases downstream@.len() - t,
    {
        if key.source == origin && key.sink == downstream[t].origin {
            return true;
        }
        t = t + 1;
    }
    false
}

/// Stops tracking every pair of `chunk` and one of its upstream or
/// downstream neighbors; the other pairs keep their order.
fn remove_all_chunk_pairs_for(chunk_pairs: &mut Vec<(ChunkPairOrigins, ChunkPair)>, chunk: &Chunk)
    ensures
        final(chunk_pairs)@ == old(chunk_pairs)@.filter(
            |e: (ChunkPairOrigins, ChunkPair)|
                !is_pair_of_neighbor(e.0, chunk.origin, chunk.upstream_neighbors@, chunk.downstream_neighbors@),
        ),
{
    let origin = chunk.origin;
    let upstream = &chunk.upstream_neighbors;
    let downstream = &chunk.downstream_neighbors;
    let ghost keep = |e: (ChunkPairOrigins, ChunkPair)| !is_pair_of_neighbor(e.0, origin, upstream@, downstream@);
    let mut remaining: Vec<(ChunkPairOrigins, ChunkPair)> = Vec::new();
    std::mem::swap(chunk_pairs, &mut remaining);
    let ghost all = remaining@;
    let total: usize = remaining.len();
    let mut i: usize = 0;
    while remaining.len() > 0
        invariant
            i <= all.len(),
            all.len() == total,
            remaining@ == all.skip(i as int),
            chunk_pairs@ == all.take(i as int).filter(keep),
            keep == (|e: (ChunkPairOrigins, ChunkPair)| !is_pair_of_neighbor(e.0, origin, upstream@, downstream@)),
            origin == chunk.origin,
            upstream@ == chunk.upstream_neighbors@,
            downstream@ == chunk.downstream_neighbors@,
        decreases remaining@.len(),
    {
        let entry = remaining.remove(0);
        proof {
            assert(entry == all[i as int]);
            assert(all.take(i + 1).drop_last() =~= all.take(i as int));
            assert(all.take(i + 1).last() == all[i as int]);
            assert(remaining@ =~= all.skip(i + 1));
            assert(i + 1 <= all.len());
        }
        let is_neighbor_pair = is_pair_of_neighbor_exec(&entry.0, origin, upstream, downstream);
        let ghost kept_before = chunk_pairs@;
        if !is_neighbor_pair {
            chunk_pairs.push(entry);
        }
        proof {
            assert(keep(entry) == !is_neighbor_pair);
            reveal(Seq::filter);
            assert(all.take(i + 1).filter(keep) == if keep(all.take(i + 1).last()) {
                all.take(i + 1).drop_last().filter(keep).push(all.take(i + 1).last())
            } else {
                all.take(i + 1).drop_last().filter(keep)
            });
        }
        i = i + 1;
    }
    proof {
        assert(all.take(all.len() as int) =~= all);
        assert(keep == (|e: (ChunkPairOrigins, ChunkPair)|
            !is_pair_of_neighbor(e.0, chunk.origin, chunk.upstream_neighbors@, chunk.downstream_neighbors@)));
    }
}

/// Unloading a chunk stops tracking exactly its pairs with its
/// neighbors: no remaining entry is the pair of the chunk and one of its
/// upstream neighbors (as source) or downstream neighbors (as sink), every
/// other entry remains, and nothing else appears.
pub proof fn lemma_dropped_pairs_are_the_neighbor_pairs(
    pairs: Seq<(ChunkPairOrigins, ChunkPair)>,
    origin: ChunkOrigin,
    upstream: Seq<UpstreamNeighbor>,
    downstream: Seq<DownstreamNeighbor>,
)
    ensures
        ({
            let kept = pairs.filter(
                |e: (ChunkPairOrigins, ChunkPair)| !is_pair_of_neighbor(e.0, origin, upstream, downstream),
            );
            &&& forall|i: int, t: int|
                0 <= i < kept.len() && 0 <= t < upstream.len() ==> #[trigger] kept[i].0 != pair_key(
                    #[trigger] upstream[t].origin,
                    origin,
                )
            &&& forall|i: int, t: int|
                0 <= i < kept.len() && 0 <= t < downstream.len() ==> #[trigger] kept[i].0 != pair_key(
                    origin,
                    #[trigger] downstream[t].origin,
                )
            &&& forall|j: int|
                0 <= j < pairs.len() && (forall|t: int|
                    0 <= t < upstream.len() ==> pairs[j].0 != pair_key(#[trigger] upstream[t].origin, origin)) && (
                forall|t: int|
                    0 <= t < downstream.len() ==> pairs[j].0 != pair_key(origin, #[trigger] downstream[t].origin))
                    ==> kept.contains(#[trigger] pairs[j])
            &&& forall|i: int| 0 <= i < kept.len() ==> pairs.contains(#[trigger] kept[i])
        }),
{
    let keep = |e: (ChunkPairOrigins, ChunkPair)| !is_pair_of_neighbor(e.0, origin, upstream, downstream);
    let kept = pairs.filter(keep);
    pairs.filter_lemma(keep);
    assert forall|i: int, t: int| 0 <= i < kept.len() && 0 <= t < upstream.len() implies #[trigger] kept[i].0 != pair_key(
        #[trigger] upstream[t].origin,
        origin,
    ) by {
        assert(keep(kept[i]));
    }
    assert forall|i: int, t: int|
        0 <= i < kept.len() && 0 <= t < downstream.len() implies #[trigger] kept[i].0 != pair_key(
        origin,
        #[trigger] downstream[t].origin,
    ) by {
        assert(keep(kept[i]));
    }
    assert forall|j: int|
        0 <= j < pairs.len() && (forall|t: int|
            0 <= t < upstream.len() ==> pairs[j].0 != pair_key(#[trigger] upstream[t].origin, origin)) && (forall|t: int|
            0 <= t < downstream.len() ==> pairs[j].0 != pair_key(origin, #[trigger] downstream[t].origin)) implies kept.contains(
        #[trigger] pairs[j],
    ) by {
        assert(keep(pairs[j]));
    }
    assert forall|i: int| 0 <= i < kept.len() implies pairs.contains(#[trigger] kept[i]) by {
        assert(kept.contains(kept[i]));
        pairs.lemma_filter_contains_rev(keep, kept[i]);
    }
}

/// Unloads the chunk at `chunk_origin`, which must be loaded, and stops
/// tracking the cells it shares with its neighbors. Returns the chunk.
pub fn remove_chunk(
    chunks: &mut Vec<Chunk>,
    chunk_pairs: &mut Vec<(ChunkPairOrigins, ChunkPair)>,
    chunk_origin: ChunkOrigin,
) -> (chunk: Chunk)
    requires
        origins_distinct(old(chunks)@),
        is_loaded(old(chunks)@, chunk_origin),
    ensures
        chunk == old(chunks)@[chunk_index(old(chunks)@, chunk_origin)],
        chunk.origin == chunk_origin,
        final(chunks)@ == old(chunks)@.remove(chunk_index(old(chunks)@, chunk_origin)),
        origins_distinct(final(chunks)@),
        !is_loaded(final(chunks)@, chunk_origin),
        final(chunk_pairs)@ == old(chunk_pairs)@.filter(
            |e: (ChunkPairOrigins, ChunkPair)|
                !is_pair_of_neighbor(e.0, chunk_origin, chunk.upstream_neighbors@, chunk.downstream_neighbors@),
        ),
        forall|i: int, t: int|
            0 <= i < final(chunk_pairs)@.len() && 0 <= t < chunk.upstream_neighbors@.len()
                ==> #[trigger] final(chunk_pairs)@[i].0 != pair_key(#[trigger] chunk.upstream_neighbors@[t].origin, chunk_origin),
        forall|i: int, t: int|
            0 <= i < final(chunk_pairs)@.len() && 0 <= t < chunk.downstream_neighbors@.len()
                ==> #[trigger] final(chunk_pairs)@[i].0 != pair_key(chunk_origin, #[trigger] chunk.downstream_neighbors@[t].origin),
        forall|i: int| 0 <= i < final(chunk_pairs)@.len() ==> old(chunk_pairs)@.contains(#[trigger] final(chunk_pairs)@[i]),
        forall|j: int|
            0 <= j < old(chunk_pairs)@.len() && (forall|t: int|
                0 <= t < chunk.upstream_neighbors@.len() ==> old(chunk_pairs)@[j].0 != pair_key(
                    #[trigger] chunk.upstream_neighbors@[t].origin,
                    chunk_origin,
                )) && (forall|t: int|
                0 <= t < chunk.downstream_neighbors@.len() ==> old(chunk_pairs)@[j].0 != pair_key(
                    chunk_origin,
                    #[trigger] chunk.downstream_neighbors@[t].origin,
                )) ==> final(chunk_pairs)@.contains(#[trigger] old(chunk_pairs)@[j]),
{
    let i: usize = match find_chunk(chunks, chunk_origin) {
        Some(i) => i,
        None => {
            proof {
                assert(false);
            }
            0
        },
    };
    proof {
        let c = chunk_index(old(chunks)@, chunk_origin);
        assert(0 <= c < old(chunks)@.len() && old(chunks)@[c].origin == chunk_origin);
        assert(c == i);
    }
    let chunk = chunks.remove(i);
    proof {
        lemma_removing_keeps_others(old(chunks)@, i as int);
    }
    remove_all_chunk_pairs_for(chunk_pairs, &chunk);
    proof {
        lemma_dropped_pairs_are_the_neighbor_pairs(
            old(chunk_pairs)@,
            chunk_origin,
            chunk.upstream_neighbors@,
            chunk.downstream_neighbors@,
        );
    }
    chunk
}

/// Removing the chunk at `i` from chunks with distinct origins leaves
/// chunks with distinct origins, none of them at the removed origin.
proof fn lemma_removing_keeps_others(chunks: Seq<Chunk>, i: int)
    requires
        origins_distinct(chunks),
        0 <= i < chunks.len(),
    ensures
        origins_distinct(chunks.remove(i)),
        !is_loaded(chunks.remove(i), chunks[i].origin),
{
    let rest = chunks.remove(i);
    assert forall|a: int, b: int| 0 <= a < rest.len() && 0 <= b < rest.len() && a != b implies #[trigger] rest[a].origin
        != #[trigger] rest[b].origin by {
        let a0 = if a < i { a } else { a + 1 };
        let b0 = if b < i { b } else { b + 1 };
        assert(rest[a] == chunks[a0] && rest[b] == chunks[b0]);
    }
    if is_loaded(rest, chunks[i].origin) {
        let a = choose|a: int| 0 <= a < rest.len() && #[trigger] rest[a].origin == chunks[i].origin;
        let a0 = if a < i { a } else { a + 1 };
        assert(rest[a] == chunks[a0]);
    }
}

/// Unloading a chunk just loaded gives it back and leaves the other
/// loaded chunks as they were: for chunks with distinct origins and a
/// chunk `c` whose origin is not loaded, loading `c` (a push, as
/// `add_chunk` does) and then unloading its origin (as `remove_chunk`
/// does) returns `c` and the chunks from before.
pub proof fn lemma_remove_undoes_add(chunks: Seq<Chunk>, c: Chunk)
    requires
        origins_distinct(chunks),
        !is_loaded(chunks, c.origin),
    ensures
        origins_distinct(chunks.push(c)),
        is_loaded(chunks.push(c), c.origin),
        chunk_index(chunks.push(c), c.origin) == chunks.len(),
        chunks.push(c)[chunk_index(chunks.push(c), c.origin)] == c,
        chunks.push(c).remove(chunk_index(chunks.push(c), c.origin)) == chunks,
        !is_loaded(chunks.push(c).remove(chunk_index(chunks.push(c), c.origin)), c.origin),
{
    let after = chunks.push(c);
    let n = chunks.len() as int;
    assert(after[n] == c);
    assert forall|a: int, b: int| 0 <= a < after.len() && 0 <= b < after.len() && a != b implies #[trigger] after[a].origin
        != #[trigger] after[b].origin by {
        if a == n {
            assert(after[b] == chunks[b]);
        } else if b == n {
            assert(after[a] == chunks[a]);
        } else {
            assert(after[a] == chunks[a] && after[b] == chunks[b]);
        }
    }
    let k = chunk_index(after, c.origin);
    assert(0 <= k < after.len() && after[k].origin == c.origin);
    if k != n {
        assert(after[k] == chunks[k]);
    }
    assert(after.remove(n) =~= chunks);
}

fn find_chunk(chunks: &Vec<Chunk>, origin: ChunkOrigin) -> (r: Option<usize>)
    ensures
        match r {
            Some(i) => i < chunks@.len() && chunks@[i as int].origin == origin,
            None => !is_loaded(chunks@, origin),
        },
{
    let mut i: usize = 0;
    while i < chunks.len()
        invariant
            i <= chunks@.len(),
            forall|j: int| 0 <= j < i ==> (#[trigger] chunks@[j]).origin != origin,
        decreases chunks@.len() - i,
    {
        if chunks[i].origin == origin {
            return Some(i);
        }
        i = i + 1;
    }
    None
}

fn find_chunk_pair(pairs: &Vec<(ChunkPairOrigins, ChunkPair)>, key: ChunkPairOrigins) -> (r: Option<usize>)
    ensures
        match r {
            Some(p) => p < pairs@.len() && pairs@[p as int].0 == key,
            None => forall|q: int| 0 <= q < pairs@.len() ==> (#[trigger] pairs@[q]).0 != key,
        },
{
    let mut p: usize = 0;
    while p < pairs.len()
        invariant
            p <= pairs@.len(),
            forall|q: int| 0 <= q < p ==> (#[trigger] pairs@[q]).0 != key,
        decreases pairs@.len() - p,
    {
        if pairs[p].0 == key {
            return Some(p);
        }
        p = p + 1;
    }
    None
}

} // verus!
