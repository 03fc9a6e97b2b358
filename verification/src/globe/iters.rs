use vstd::prelude::*;

use super::chunk_origin::{
    chunk_contains, is_chunk_origin, is_valid_chunk_resolution, lemma_round_down, round_down,
    ChunkOrigin,
};
use crate::grid_point3::{cell_at, GridPoint3};
use crate::GridCoord;

verus! {

// Candidates with `SameX` in their name are only applicable
// before the south-western (high-x) root boundary.
//
// Candidates with `SameY` in their name are only applicable
// before the south-eastern (high-y) root boundary.
//
// Candidates with `PrevX` in their name are only applicable
// after the north-eastern (low-x) root boundary, and only where
// the point lies on a chunk boundary in the x-direction.
//
// Candidates with `PrevY` in their name are only applicable
// after the north-western (low-y) root boundary, and only where
// the point lies on a chunk boundary in the y-direction.
//
// A root quad with 2x2 chunks:
//
//          ●
//         / \
//        / · \
//       / · · \
//      ● · · · ●
//     / \ · · / \
//    / · \ · / · \
//   / · · \ / · · \
//  ● · · · ● · · · ●
//   \ · · / \ · · /
//    \ · / · \ · /
//     \ / · · \ /
//      ● · · · ●
//       \ · · /
//        \ · /
//         \ /
//          ●
//
enum CandidateChunk {
    SameXSameY,
    SameXPrevY,
    PrevXSameY,
    PrevXPrevY,
    Done,
}

/// The point lies inside its root quad (or on its edges), at or above the
/// bottom of the globe, with chunk resolutions that make sense.
pub open spec fn is_valid_query(
    point: GridPoint3,
    root_resolution: [GridCoord; 2],
    chunk_resolution: [GridCoord; 3],
) -> bool {
    &&& is_valid_chunk_resolution(chunk_resolution)
    &&& point.is_within_root(root_resolution)
    &&& point.z >= 0
}

/// Origin of the chunk at `(chunk_x, chunk_y)` in the root of `point`,
/// in the layer of chunks holding `point`.
pub open spec fn chunk_origin_at(
    point: GridPoint3,
    chunk_resolution: [GridCoord; 3],
    chunk_x: int,
    chunk_y: int,
) -> GridPoint3 {
    cell_at(point.rxy.root, chunk_x as i64, chunk_y as i64, round_down(point.z as int, chunk_resolution[2] as int) as i64)
}

/// The chunk origin tried at stage `stage` (0 to 3) of the search, if that
/// stage applies to `point`; otherwise nothing.
pub open spec fn candidate(
    stage: int,
    point: GridPoint3,
    root_resolution: [GridCoord; 2],
    chunk_resolution: [GridCoord; 3],
) -> Seq<GridPoint3> {
    let x = point.rxy.x as int;
    let y = point.rxy.y as int;
    let same_x = round_down(x, chunk_resolution[0] as int);
    let same_y = round_down(y, chunk_resolution[1] as int);
    let prev_x = same_x - chunk_resolution[0];
    let prev_y = same_y - chunk_resolution[1];
    let has_same_x = x < root_resolution[0];
    let has_same_y = y < root_resolution[1];
    let has_prev_x = x > 0 && x == same_x;
    let has_prev_y = y > 0 && y == same_y;
    if stage == 0 && has_same_x && has_same_y {
        seq![chunk_origin_at(point, chunk_resolution, same_x, same_y)]
    } else if stage == 1 && has_same_x && has_prev_y {
        seq![chunk_origin_at(point, chunk_resolution, same_x, prev_y)]
    } else if stage == 2 && has_prev_x && has_same_y {
        seq![chunk_origin_at(point, chunk_resolution, prev_x, same_y)]
    } else if stage == 3 && has_prev_x && has_prev_y {
        seq![chunk_origin_at(point, chunk_resolution, prev_x, prev_y)]
    } else {
        Seq::empty()
    }
}

/// The chunk origins found by the search from stage `stage` onwards.
pub open spec fn candidates_from(
    stage: int,
    point: GridPoint3,
    root_resolution: [GridCoord; 2],
    chunk_resolution: [GridCoord; 3],
) -> Seq<GridPoint3>
    decreases 4 - stage,
{
    if stage >= 4 {
        Seq::empty()
    } else {
        candidate(stage, point, root_resolution, chunk_resolution) + candidates_from(
            stage + 1,
            point,
            root_resolution,
            chunk_resolution,
        )
    }
}

/// The origins, in the order they are produced, of the chunks in the same
/// root as `point` that contain `point`.
pub open spec fn containing_chunk_origins(
    point: GridPoint3,
    root_resolution: [GridCoord; 2],
    chunk_resolution: [GridCoord; 3],
) -> Seq<GridPoint3> {
    candidates_from(0, point, root_resolution, chunk_resolution)
}

/// Iterates over the origins of all chunks in the same root as a point
/// that contain that point.
///
/// A point in the middle of a chunk belongs to one chunk; a point on the
/// edge between two chunks belongs to both, and a point on a corner shared
/// by four chunks belongs to all four. Chunks in neighbouring root quads
/// are not considered.
pub struct ChunksInSameRootContainingPoint {
    point: GridPoint3,
    root_resolution: [GridCoord; 2],
    chunk_resolution: [GridCoord; 3],
    next_candidate_chunk: CandidateChunk,
}

spec fn stage_of(c: CandidateChunk) -> int {
    match c {
        CandidateChunk::SameXSameY => 0,
        CandidateChunk::SameXPrevY => 1,
        CandidateChunk::PrevXSameY => 2,
        CandidateChunk::PrevXPrevY => 3,
        CandidateChunk::Done => 4,
    }
}

impl ChunksInSameRootContainingPoint {
    #[verifier::type_invariant]
    spec fn inv(self) -> bool {
        is_valid_query(self.point, self.root_resolution, self.chunk_resolution)
    }

    /// The chunk origins still to be produced.
    pub closed spec fn remaining(&self) -> Seq<GridPoint3> {
        candidates_from(
            stage_of(self.next_candidate_chunk),
            self.point,
            self.root_resolution,
            self.chunk_resolution,
        )
    }

    pub fn new(
        point: GridPoint3,
        root_resolution: [GridCoord; 2],
        chunk_resolution: [GridCoord; 3],
    ) -> (it: ChunksInSameRootContainingPoint)
        requires
            is_valid_query(point, root_resolution, chunk_resolution),
        ensures
            it.remaining() == containing_chunk_origins(point, root_resolution, chunk_resolution),
    {
        ChunksInSameRootContainingPoint {
            point: point,
            root_resolution: root_resolution,
            chunk_resolution: chunk_resolution,
            next_candidate_chunk: CandidateChunk::SameXSameY,
        }
    }

    fn has_same_x_chunk(&self) -> (b: bool)
        ensures
            b == (self.point.rxy.x < self.root_resolution[0]),
    {
        self.point.rxy.x < self.root_resolution[0]
    }

    fn has_same_y_chunk(&self) -> (b: bool)
        ensures
            b == (self.point.rxy.y < self.root_resolution[1]),
    {
        self.point.rxy.y < self.root_resolution[1]
    }

    fn has_prev_x_chunk(&self) -> (b: bool)
        ensures
            b == (self.point.rxy.x > 0 && self.point.rxy.x == round_down(
                self.point.rxy.x as int,
                self.chunk_resolution[0] as int,
            )),
    {
        self.point.rxy.x > 0
        &&
        // On chunk boundary in x-direction
        self.point.rxy.x == self.same_chunk_x()
    }

    fn has_prev_y_chunk(&self) -> (b: bool)
        ensures
            b == (self.point.rxy.y > 0 && self.point.rxy.y == round_down(
                self.point.rxy.y as int,
                self.chunk_resolution[1] as int,
            )),
    {
        self.point.rxy.y > 0
        &&
        // On chunk boundary in y-direction
        self.point.rxy.y == self.same_chunk_y()
    }

    fn same_chunk_x(&self) -> (c: GridCoord)
        ensures
            c == round_down(self.point.rxy.x as int, self.chunk_resolution[0] as int),
    {
        proof {
            use_type_invariant(self);
            lemma_round_down(self.point.rxy.x as int, self.chunk_resolution[0] as int);
        }
        self.point.rxy.x / self.chunk_resolution[0] * self.chunk_resolution[0]
    }

    fn same_chunk_y(&self) -> (c: GridCoord)
        ensures
            c == round_down(self.point.rxy.y as int, self.chunk_resolution[1] as int),
    {
        proof {
            use_type_invariant(self);
            lemma_round_down(self.point.rxy.y as int, self.chunk_resolution[1] as int);
        }
        self.point.rxy.y / self.chunk_resolution[1] * self.chunk_resolution[1]
    }

    fn prev_chunk_x(&self) -> (c: GridCoord)
        ensures
            c == round_down(self.point.rxy.x as int, self.chunk_resolution[0] as int)
                - self.chunk_resolution[0],
    {
        proof {
            use_type_invariant(self);
            lemma_round_down(self.point.rxy.x as int, self.chunk_resolution[0] as int);
            let q = self.point.rxy.x / self.chunk_resolution[0];
            let c0 = self.chunk_resolution[0];
            assert((q - 1) * c0 == q * c0 - c0) by (nonlinear_arith);
        }
        (self.point.rxy.x / self.chunk_resolution[0] - 1) * self.chunk_resolution[0]
    }

    fn prev_chunk_y(&self) -> (c: GridCoord)
        ensures
            c == round_down(self.point.rxy.y as int, self.chunk_resolution[1] as int)
                - self.chunk_resolution[1],
    {
        proof {
            use_type_invariant(self);
            lemma_round_down(self.point.rxy.y as int, self.chunk_resolution[1] as int);
            let q = self.point.rxy.y / self.chunk_resolution[1];
            let c1 = self.chunk_resolution[1];
            assert((q - 1) * c1 == q * c1 - c1) by (nonlinear_arith);
        }
        (self.point.rxy.y / self.chunk_resolution[1] - 1) * self.chunk_resolution[1]
    }

    fn chunk_origin(&self, chunk_x: GridCoord, chunk_y: GridCoord) -> (o: Option<ChunkOrigin>)
        requires
            0 <= chunk_x < self.root_resolution[0],
            0 <= chunk_y < self.root_resolution[1],
            chunk_x % self.chunk_resolution[0] == 0,
            chunk_y % self.chunk_resolution[1] == 0,
        ensures
            o matches Some(origin) && origin@ == chunk_origin_at(
                self.point,
                self.chunk_resolution,
                chunk_x as int,
                chunk_y as int,
            ),
    {
        proof {
            use_type_invariant(self);
            lemma_round_down(self.point.z as int, self.chunk_resolution[2] as int);
        }
        Some(
            ChunkOrigin::new(
                GridPoint3::new(
                    self.point.rxy.root,
                    chunk_x,
                    chunk_y,
                    self.point.z / self.chunk_resolution[2] * self.chunk_resolution[2],
                ),
                self.root_resolution,
                self.chunk_resolution,
            ),
        )
    }

    /// Produces the next chunk origin, or `None` once all chunks containing
    /// the point have been produced.
    pub fn next(&mut self) -> (r: Option<ChunkOrigin>)
        ensures
            match r {
                None => old(self).remaining().len() == 0 && final(self).remaining().len() == 0,
                Some(origin) => {
                    &&& old(self).remaining().len() > 0
                    &&& origin@ == old(self).remaining()[0]
                    &&& final(self).remaining() == old(self).remaining().drop_first()
                },
            },
    {
        proof {
            use_type_invariant(&*self);
            let x = self.point.rxy.x as int;
            let y = self.point.rxy.y as int;
            lemma_round_down(x, self.chunk_resolution[0] as int);
            lemma_round_down(y, self.chunk_resolution[1] as int);
        }
        loop
            invariant
                self.remaining() == old(self).remaining(),
                self.point == old(self).point,
                self.root_resolution == old(self).root_resolution,
                self.chunk_resolution == old(self).chunk_resolution,
                is_valid_query(self.point, self.root_resolution, self.chunk_resolution),
                0 <= round_down(self.point.rxy.x as int, self.chunk_resolution[0] as int) <= self.point.rxy.x,
                0 <= round_down(self.point.rxy.y as int, self.chunk_resolution[1] as int) <= self.point.rxy.y,
                round_down(self.point.rxy.x as int, self.chunk_resolution[0] as int) % (self.chunk_resolution[0] as int) == 0,
                round_down(self.point.rxy.y as int, self.chunk_resolution[1] as int) % (self.chunk_resolution[1] as int) == 0,
                (round_down(self.point.rxy.x as int, self.chunk_resolution[0] as int) - self.chunk_resolution[0]) % (self.chunk_resolution[0] as int) == 0,
                (round_down(self.point.rxy.y as int, self.chunk_resolution[1] as int) - self.chunk_resolution[1]) % (self.chunk_resolution[1] as int) == 0,
                round_down(self.point.rxy.x as int, self.chunk_resolution[0] as int) > 0 ==> round_down(self.point.rxy.x as int, self.chunk_resolution[0] as int) >= self.chunk_resolution[0],
                round_down(self.point.rxy.y as int, self.chunk_resolution[1] as int) > 0 ==> round_down(self.point.rxy.y as int, self.chunk_resolution[1] as int) >= self.chunk_resolution[1],
            decreases 4 - stage_of(self.next_candidate_chunk),
        {
            match self.next_candidate_chunk {
                CandidateChunk::SameXSameY => {
                    self.next_candidate_chunk = CandidateChunk::SameXPrevY;
                    if self.has_same_x_chunk() && self.has_same_y_chunk() {
                        let chunk_x = self.same_chunk_x();
                        let chunk_y = self.same_chunk_y();
                        return self.chunk_origin(chunk_x, chunk_y);
                    }
                },
                CandidateChunk::SameXPrevY => {
                    self.next_candidate_chunk = CandidateChunk::PrevXSameY;
                    if self.has_same_x_chunk() && self.has_prev_y_chunk() {
                        let chunk_x = self.same_chunk_x();
                        let chunk_y = self.prev_chunk_y();
                        return self.chunk_origin(chunk_x, chunk_y);
                    }
                },
                CandidateChunk::PrevXSameY => {
                    self.next_candidate_chunk = CandidateChunk::PrevXPrevY;
                    if self.has_prev_x_chunk() && self.has_same_y_chunk() {
                        let chunk_x = self.prev_chunk_x();
                        let chunk_y = self.same_chunk_y();
                        return self.chunk_origin(chunk_x, chunk_y);
                    }
                },
                CandidateChunk::PrevXPrevY => {
                    self.next_candidate_chunk = CandidateChunk::Done;
                    if self.has_prev_x_chunk() && self.has_prev_y_chunk() {
                        let chunk_x = self.prev_chunk_x();
                        let chunk_y = self.prev_chunk_y();
                        return self.chunk_origin(chunk_x, chunk_y);
                    }
                },
                CandidateChunk::Done => {
                    return None;
                },
            }
        }
    }
}

/// A chunk origin is among the search results exactly when one of the four
/// stages tries it.
proof fn lemma_contains_iff_some_stage(
    point: GridPoint3,
    root_resolution: [GridCoord; 2],
    chunk_resolution: [GridCoord; 3],
    origin: GridPoint3,
)
    ensures
        containing_chunk_origins(point, root_resolution, chunk_resolution).contains(origin) <==> (
        candidate(0, point, root_resolution, chunk_resolution).contains(origin) || candidate(
            1,
            point,
            root_resolution,
            chunk_resolution,
        ).contains(origin) || candidate(2, point, root_resolution, chunk_resolution).contains(origin)
            || candidate(3, point, root_resolution, chunk_resolution).contains(origin)),
{
    broadcast use vstd::seq_lib::lemma_seq_concat_contains_all_elements;
    broadcast use vstd::seq_lib::lemma_seq_empty_contains_nothing;

    reveal_with_fuel(candidates_from, 5);
    let c3 = candidate(3, point, root_resolution, chunk_resolution);
    assert(candidates_from(3, point, root_resolution, chunk_resolution) == c3 + Seq::<
        GridPoint3,
    >::empty());
}

/// Every chunk origin the search produces is a valid chunk origin, in the
/// same root as the point, whose chunk contains the point. When the chunk
/// resolution divides the root resolution (as on every valid globe), the
/// search also finds every chunk in that root that contains the point.
pub proof fn lemma_containing_chunk_origins_are_exactly_containing_chunks(
    point: GridPoint3,
    root_resolution: [GridCoord; 2],
    chunk_resolution: [GridCoord; 3],
    origin: GridPoint3,
)
    requires
        is_valid_query(point, root_resolution, chunk_resolution),
    ensures
        containing_chunk_origins(point, root_resolution, chunk_resolution).contains(origin) ==> {
            &&& is_chunk_origin(origin, root_resolution, chunk_resolution)
            &&& chunk_contains(origin, chunk_resolution, point)
        },
        root_resolution[0] % chunk_resolution[0] == 0 && root_resolution[1] % chunk_resolution[1]
            == 0 && is_chunk_origin(origin, root_resolution, chunk_resolution) && chunk_contains(
            origin,
            chunk_resolution,
            point,
        ) ==> containing_chunk_origins(point, root_resolution, chunk_resolution).contains(origin),
{
    let x = point.rxy.x as int;
    let y = point.rxy.y as int;
    let z = point.z as int;
    let c0 = chunk_resolution[0] as int;
    let c1 = chunk_resolution[1] as int;
    let c2 = chunk_resolution[2] as int;
    lemma_round_down(x, c0);
    lemma_round_down(y, c1);
    lemma_round_down(z, c2);
    lemma_contains_iff_some_stage(point, root_resolution, chunk_resolution, origin);
    if root_resolution[0] % chunk_resolution[0] == 0 && root_resolution[1] % chunk_resolution[1]
        == 0 && is_chunk_origin(origin, root_resolution, chunk_resolution) && chunk_contains(
        origin,
        chunk_resolution,
        point,
    ) {
        let ox = origin.rxy.x as int;
        let oy = origin.rxy.y as int;
        vstd::arithmetic::div_mod::lemma_mod_multiples_vanish(1, ox, c0);
        vstd::arithmetic::div_mod::lemma_mod_multiples_vanish(1, oy, c1);
        assert(c0 * 1 == c0 && c1 * 1 == c1);
        assert(origin.z as int == round_down(z, c2));
        let expected = chunk_origin_at(point, chunk_resolution, ox, oy);
        assert(origin == expected);
        if ox == round_down(x, c0) {
            if oy == round_down(y, c1) {
                assert(candidate(0, point, root_resolution, chunk_resolution) == seq![expected]);
                assert(candidate(0, point, root_resolution, chunk_resolution)[0] == origin);
            } else {
                assert(candidate(1, point, root_resolution, chunk_resolution) == seq![expected]);
                assert(candidate(1, point, root_resolution, chunk_resolution)[0] == origin);
            }
        } else {
            if oy == round_down(y, c1) {
                assert(candidate(2, point, root_resolution, chunk_resolution) == seq![expected]);
                assert(candidate(2, point, root_resolution, chunk_resolution)[0] == origin);
            } else {
                assert(candidate(3, point, root_resolution, chunk_resolution) == seq![expected]);
                assert(candidate(3, point, root_resolution, chunk_resolution)[0] == origin);
            }
        }
    }
}

/// The search never produces the same chunk origin twice, and always finds
/// at least one chunk (the point lies in some chunk of its root) and at
/// most four (a point on a corner shared by four chunks).
pub proof fn lemma_containing_chunk_origins_distinct(
    point: GridPoint3,
    root_resolution: [GridCoord; 2],
    chunk_resolution: [GridCoord; 3],
)
    requires
        is_valid_query(point, root_resolution, chunk_resolution),
        root_resolution[0] % chunk_resolution[0] == 0,
        root_resolution[1] % chunk_resolution[1] == 0,
        root_resolution[0] > 0,
        root_resolution[1] > 0,
    ensures
        containing_chunk_origins(point, root_resolution, chunk_resolution).no_duplicates(),
        1 <= containing_chunk_origins(point, root_resolution, chunk_resolution).len() <= 4,
{
    let x = point.rxy.x as int;
    let y = point.rxy.y as int;
    lemma_round_down(x, chunk_resolution[0] as int);
    lemma_round_down(y, chunk_resolution[1] as int);
    lemma_round_down(root_resolution[0] as int, chunk_resolution[0] as int);
    lemma_round_down(root_resolution[1] as int, chunk_resolution[1] as int);
    reveal_with_fuel(candidates_from, 5);
    let a = candidate(0, point, root_resolution, chunk_resolution);
    let b = candidate(1, point, root_resolution, chunk_resolution);
    let c = candidate(2, point, root_resolution, chunk_resolution);
    let d = candidate(3, point, root_resolution, chunk_resolution);
    let e = Seq::<GridPoint3>::empty();
    assert(d + e =~= d);
    vstd::seq_lib::lemma_no_dup_in_concat(c, d);
    vstd::seq_lib::lemma_no_dup_in_concat(b, c + d);
    vstd::seq_lib::lemma_no_dup_in_concat(a, b + (c + d));
    assert(containing_chunk_origins(point, root_resolution, chunk_resolution) == a + (b + (c + d)));
    if x < root_resolution[0] {
        if y < root_resolution[1] {
            assert(a.len() == 1);
        } else {
            assert(b.len() == 1);
        }
    } else {
        if y < root_resolution[1] {
            assert(c.len() == 1);
        } else {
            assert(d.len() == 1);
        }
    }
}

} // verus!
