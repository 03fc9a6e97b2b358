//! The chunks of a globe that are loaded, and the pairs of them whose
//! shared cells are tracked, kept with at most one chunk per origin and one
//! entry per pair of chunks.
use vstd::prelude::*;

use super::chunk::Chunk;
use super::chunk_origin::ChunkOrigin;
use super::chunk_pair::{ChunkPair, ChunkPairOrigins};
use super::shared_cells::{
    add_chunk, chunk_index, has_key, is_entry_for_downstream, is_entry_for_upstream, is_loaded, pair_key, is_pair_of_neighbor, origins_distinct, pair_keys_distinct,
    pull_ready, pull_result, pull_shared_cells_for_chunk, push_ready, push_result, push_shared_cells_for_chunk,
    remove_chunk,
};
use crate::GridCoord;

verus! {

/// The loaded chunks of a globe and the pairs of chunks whose shared
/// cells are tracked.
pub struct LoadedChunks {
    chunks: Vec<Chunk>,
    chunk_pairs: Vec<(ChunkPairOrigins, ChunkPair)>,
}

impl LoadedChunks {
    /// No two chunks at the same origin, no two entries for the same pair.
    #[verifier::type_invariant]
    spec fn keys_distinct(&self) -> bool {
        &&& origins_distinct(self.chunks@)
        &&& pair_keys_distinct(self.chunk_pairs@)
    }

    /// The loaded chunks.
    pub closed spec fn chunks(&self) -> Seq<Chunk> {
        self.chunks@
    }

    /// The tracked pairs of chunks.
    pub closed spec fn chunk_pairs(&self) -> Seq<(ChunkPairOrigins, ChunkPair)> {
        self.chunk_pairs@
    }

    /// Moves the chunks and pairs out, leaving nothing loaded.
    fn take(&mut self) -> (r: (Vec<Chunk>, Vec<(ChunkPairOrigins, ChunkPair)>))
        ensures
            r.0@ == old(self).chunks(),
            r.1@ == old(self).chunk_pairs(),
            origins_distinct(r.0@),
            pair_keys_distinct(r.1@),
            final(self).chunks().len() == 0,
            final(self).chunk_pairs().len() == 0,
    {
        proof {
            use_type_invariant(&*self);
        }
        let mut chunks: Vec<Chunk> = Vec::new();
        let mut chunk_pairs: Vec<(ChunkPairOrigins, ChunkPair)> = Vec::new();
        std::mem::swap(&mut chunks, &mut self.chunks);
        std::mem::swap(&mut chunk_pairs, &mut self.chunk_pairs);
        (chunks, chunk_pairs)
    }

    /// Nothing loaded.
    pub fn new() -> (s: LoadedChunks)
        ensures
            s.chunks().len() == 0,
            s.chunk_pairs().len() == 0,
    {
        LoadedChunks { chunks: Vec::new(), chunk_pairs: Vec::new() }
    }

    /// The chunk at `chunk_origin`, if it is loaded.
    pub fn chunk_at(&self, chunk_origin: ChunkOrigin) -> (r: Option<&Chunk>)
        ensures
            r is Some == is_loaded(self.chunks(), chunk_origin),
            r matches Some(c) ==> *c == self.chunks()[chunk_index(self.chunks(), chunk_origin)],
    {
        proof {
            use_type_invariant(self);
        }
        let mut i: usize = 0;
        while i < self.chunks.len()
            invariant
                i <= self.chunks@.len(),
                origins_distinct(self.chunks@),
                forall|j: int| 0 <= j < i ==> (#[trigger] self.chunks@[j]).origin != chunk_origin,
            decreases self.chunks@.len() - i,
        {
            if self.chunks[i].origin == chunk_origin {
                proof {
                    let c = chunk_index(self.chunks@, chunk_origin);
                    assert(0 <= c < self.chunks@.len() && self.chunks@[c].origin == chunk_origin);
                    assert(c == i);
                }
                return Some(&self.chunks[i]);
            }
            i = i + 1;
        }
        None
    }

    /// Loads `chunk`, which must not already be loaded, and tracks its
    /// pairs with its neighbors; see `add_chunk`.
    pub fn add_chunk(&mut self, chunk: Chunk)
        requires
            !is_loaded(old(self).chunks(), chunk.origin),
        ensures
            final(self).chunks() == old(self).chunks().push(chunk),
            old(self).chunk_pairs().len() <= final(self).chunk_pairs().len(),
            forall|p: int|
                0 <= p < old(self).chunk_pairs().len() ==> #[trigger] final(self).chunk_pairs()[p] == old(
                    self,
                ).chunk_pairs()[p],
            forall|t: int|
                0 <= t < chunk.upstream_neighbors@.len() ==> has_key(
                    final(self).chunk_pairs(),
                    pair_key(#[trigger] chunk.upstream_neighbors@[t].origin, chunk.origin),
                ),
            forall|t: int|
                0 <= t < chunk.downstream_neighbors@.len() ==> has_key(
                    final(self).chunk_pairs(),
                    pair_key(chunk.origin, #[trigger] chunk.downstream_neighbors@[t].origin),
                ),
            forall|p: int|
                old(self).chunk_pairs().len() <= p < final(self).chunk_pairs().len() ==> {
                    &&& !has_key(old(self).chunk_pairs(), (#[trigger] final(self).chunk_pairs()[p]).0)
                    &&& (exists|t: int|
                        is_entry_for_upstream(final(self).chunk_pairs()[p], chunk.origin, chunk.upstream_neighbors@, t)) || (exists|t: int|
                        is_entry_for_downstream(
                            final(self).chunk_pairs()[p],
                            chunk.origin,
                            chunk.upstream_neighbors@,
                            chunk.downstream_neighbors@,
                            t,
                        ))
                },
    {
        proof {
            use_type_invariant(&*self);
        }
        let (mut chunks, mut chunk_pairs) = self.take();
        add_chunk(&mut chunks, &mut chunk_pairs, chunk);
        *self = LoadedChunks { chunks, chunk_pairs };
    }

    /// Unloads the chunk at `chunk_origin`, which must be loaded, and stops
    /// tracking its pairs with its neighbors; see `remove_chunk`.
    pub fn remove_chunk(&mut self, chunk_origin: ChunkOrigin) -> (chunk: Chunk)
        requires
            is_loaded(old(self).chunks(), chunk_origin),
        ensures
            chunk == old(self).chunks()[chunk_index(old(self).chunks(), chunk_origin)],
            final(self).chunks() == old(self).chunks().remove(chunk_index(old(self).chunks(), chunk_origin)),
            !is_loaded(final(self).chunks(), chunk_origin),
            final(self).chunk_pairs() == old(self).chunk_pairs().filter(
                |e: (ChunkPairOrigins, ChunkPair)|
                    !is_pair_of_neighbor(e.0, chunk_origin, chunk.upstream_neighbors@, chunk.downstream_neighbors@),
            ),
            forall|i: int, t: int|
                0 <= i < final(self).chunk_pairs().len() && 0 <= t < chunk.upstream_neighbors@.len()
                    ==> #[trigger] final(self).chunk_pairs()[i].0 != pair_key(
                    #[trigger] chunk.upstream_neighbors@[t].origin,
                    chunk_origin,
                ),
            forall|i: int, t: int|
                0 <= i < final(self).chunk_pairs().len() && 0 <= t < chunk.downstream_neighbors@.len()
                    ==> #[trigger] final(self).chunk_pairs()[i].0 != pair_key(
                    chunk_origin,
                    #[trigger] chunk.downstream_neighbors@[t].origin,
                ),
    {
        proof {
            use_type_invariant(&*self);
        }
        let (mut chunks, mut chunk_pairs) = self.take();
        let chunk = remove_chunk(&mut chunks, &mut chunk_pairs, chunk_origin);
        proof {
            lemma_filter_keeps_keys_distinct(
                old(self).chunk_pairs(),
                |e: (ChunkPairOrigins, ChunkPair)|
                    !is_pair_of_neighbor(e.0, chunk_origin, chunk.upstream_neighbors@, chunk.downstream_neighbors@),
            );
        }
        *self = LoadedChunks { chunks, chunk_pairs };
        chunk
    }

    /// Copies the shared cells that the chunk at `source_chunk_origin` owns
    /// into its loaded downstream neighbors that are behind; see
    /// `push_shared_cells_for_chunk`.
    pub fn push_shared_cells_for_chunk(&mut self, source_chunk_origin: ChunkOrigin, chunk_resolution: [GridCoord; 3])
        requires
            push_ready(old(self).chunks(), old(self).chunk_pairs(), source_chunk_origin, chunk_resolution),
        ensures
            push_result(
                old(self).chunks(),
                old(self).chunk_pairs(),
                final(self).chunks(),
                final(self).chunk_pairs(),
                source_chunk_origin,
                chunk_resolution,
            ),
    {
        let (mut chunks, mut chunk_pairs) = self.take();
        push_shared_cells_for_chunk(&mut chunks, &mut chunk_pairs, source_chunk_origin, chunk_resolution);
        proof {
            lemma_same_keys_stay_distinct(old(self).chunks(), chunks@, old(self).chunk_pairs(), chunk_pairs@);
        }
        *self = LoadedChunks { chunks, chunk_pairs };
    }

    /// Copies into the chunk at `sink_chunk_origin` the newer shared cells
    /// of its loaded upstream neighbors; see `pull_shared_cells_for_chunk`.
    pub fn pull_shared_cells_for_chunk(&mut self, sink_chunk_origin: ChunkOrigin, chunk_resolution: [GridCoord; 3])
        requires
            pull_ready(old(self).chunks(), old(self).chunk_pairs(), sink_chunk_origin, chunk_resolution),
        ensures
            pull_result(
                old(self).chunks(),
                old(self).chunk_pairs(),
                final(self).chunks(),
                final(self).chunk_pairs(),
                sink_chunk_origin,
                chunk_resolution,
            ),
    {
        let (mut chunks, mut chunk_pairs) = self.take();
        pull_shared_cells_for_chunk(&mut chunks, &mut chunk_pairs, sink_chunk_origin, chunk_resolution);
        proof {
            let s = chunk_index(old(self).chunks(), sink_chunk_origin);
            assert forall|j: int| 0 <= j < chunks@.len() implies #[trigger] chunks@[j].origin == old(self).chunks()[j].origin by {
                if j != s {
                    assert(chunks@[j] == old(self).chunks()[j]);
                }
            }
            lemma_same_keys_stay_distinct(old(self).chunks(), chunks@, old(self).chunk_pairs(), chunk_pairs@);
        }
        *self = LoadedChunks { chunks, chunk_pairs };
    }
}

/// Chunks and pairs whose origins and keys are those of distinct ones
/// are distinct too.
proof fn lemma_same_keys_stay_distinct(
    chunks0: Seq<Chunk>,
    chunks1: Seq<Chunk>,
    pairs0: Seq<(ChunkPairOrigins, ChunkPair)>,
    pairs1: Seq<(ChunkPairOrigins, ChunkPair)>,
)
    requires
        origins_distinct(chunks0),
        pair_keys_distinct(pairs0),
        chunks1.len() == chunks0.len(),
        pairs1.len() == pairs0.len(),
        forall|j: int| 0 <= j < chunks1.len() ==> #[trigger] chunks1[j].origin == chunks0[j].origin,
        forall|p: int| 0 <= p < pairs1.len() ==> #[trigger] pairs1[p].0 == pairs0[p].0,
    ensures
        origins_distinct(chunks1),
        pair_keys_distinct(pairs1),
{
    assert forall|a: int, b: int| 0 <= a < chunks1.len() && 0 <= b < chunks1.len() && a != b implies #[trigger] chunks1[a].origin
        != #[trigger] chunks1[b].origin by {
        assert(chunks1[a].origin == chunks0[a].origin && chunks1[b].origin == chunks0[b].origin);
    }
    assert forall|a: int, b: int| 0 <= a < pairs1.len() && 0 <= b < pairs1.len() && a != b implies #[trigger] pairs1[a].0
        != #[trigger] pairs1[b].0 by {
        assert(pairs1[a].0 == pairs0[a].0 && pairs1[b].0 == pairs0[b].0);
    }
}

/// Keeping only some entries of `pairs` keeps their keys distinct.
proof fn lemma_filter_keeps_keys_distinct(
    pairs: Seq<(ChunkPairOrigins, ChunkPair)>,
    keep: spec_fn((ChunkPairOrigins, ChunkPair)) -> bool,
)
    requires
        pair_keys_distinct(pairs),
    ensures
        pair_keys_distinct(pairs.filter(keep)),
    decreases pairs.len(),
{
    reveal(Seq::filter);
    if pairs.len() > 0 {
        let rest = pairs.drop_last();
        assert(pair_keys_distinct(rest)) by {
            assert forall|p: int, q: int| 0 <= p < rest.len() && 0 <= q < rest.len() && p != q implies #[trigger] rest[p].0
                != #[trigger] rest[q].0 by {
                assert(rest[p] == pairs[p] && rest[q] == pairs[q]);
            }
        }
        lemma_filter_keeps_keys_distinct(rest, keep);
        let kept = rest.filter(keep);
        if keep(pairs.last()) {
            let last = pairs.last();
            // The last entry's key is not among those kept before it.
            assert forall|p: int| 0 <= p < kept.len() implies kept[p].0 != last.0 by {
                assert(kept.contains(kept[p]));
                rest.lemma_filter_contains_rev(keep, kept[p]);
                let q = choose|q: int| 0 <= q < rest.len() && rest[q] == kept[p];
                assert(rest[q] == pairs[q]);
                assert(pairs[pairs.len() - 1] == last);
            }
            let all = kept.push(last);
            assert forall|p: int, q: int| 0 <= p < all.len() && 0 <= q < all.len() && p != q implies #[trigger] all[p].0
                != #[trigger] all[q].0 by {
                if p == kept.len() {
                    assert(all[q] == kept[q]);
                } else if q == kept.len() {
                    assert(all[p] == kept[p]);
                } else {
                    assert(all[p] == kept[p] && all[q] == kept[q]);
                }
            }
        }
    }
}

} // verus!
