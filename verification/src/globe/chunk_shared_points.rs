use vstd::prelude::*;

use super::chunk_origin::ChunkOrigin;
use crate::grid_point3::{cell_at, GridPoint3};
use crate::point2::Point3;
use crate::root::Root;
use crate::GridCoord;

verus! {

/// Whether `a` comes before `b` when ordering cells by x, then y, then z.
pub open spec fn comes_before(a: GridPoint3, b: GridPoint3) -> bool {
    ||| a.rxy.x < b.rxy.x
    ||| a.rxy.x == b.rxy.x && a.rxy.y < b.rxy.y
    ||| a.rxy.x == b.rxy.x && a.rxy.y == b.rxy.y && a.z < b.z
}

/// Whether `p` is a cell of the chunk at `origin` that the chunk shares
/// with a neighbouring chunk: one on the planes `x = min`, `x = max`,
/// `y = min` or `y = max` of the chunk, at any height of the chunk.
pub open spec fn is_shared_point_of_chunk(
    origin: GridPoint3,
    chunk_resolution: [GridCoord; 3],
    p: GridPoint3,
) -> bool {
    let x_max = origin.rxy.x + chunk_resolution[0];
    let y_max = origin.rxy.y + chunk_resolution[1];
    &&& p.rxy.root == origin.rxy.root
    &&& origin.rxy.x <= p.rxy.x <= x_max
    &&& origin.rxy.y <= p.rxy.y <= y_max
    &&& origin.z <= p.z < origin.z + chunk_resolution[2]
    &&& (p.rxy.x == origin.rxy.x || p.rxy.x == x_max || p.rxy.y == origin.rxy.y || p.rxy.y == y_max)
}

/// Iterate over all the points in a chunk that are shared with any
/// other chunk. That is, those on the planes of x=0, x=max, y=0, and y=max,
/// but neither the top nor bottom planes.
///
/// Points come in order of x, then y, then z.
pub struct ChunkSharedPoints {
    root: Root,
    x_min: GridCoord,
    x_max: GridCoord,
    y_min: GridCoord,
    y_max: GridCoord,
    z_min: GridCoord,
    z_end: GridCoord,
    // Next point of the chunk to consider, unless `done`.
    x: GridCoord,
    y: GridCoord,
    z: GridCoord,
    done: bool,
}

impl ChunkSharedPoints {
    #[verifier::type_invariant]
    spec fn inv(self) -> bool {
        !self.done ==> {
            &&& self.x_min <= self.x <= self.x_max
            &&& self.y_min <= self.y <= self.y_max
            &&& self.z_min <= self.z < self.z_end
        }
    }

    spec fn in_box(self, p: GridPoint3) -> bool {
        &&& p.rxy.root == self.root
        &&& self.x_min <= p.rxy.x <= self.x_max
        &&& self.y_min <= p.rxy.y <= self.y_max
        &&& self.z_min <= p.z < self.z_end
    }

    spec fn is_shared(self, p: GridPoint3) -> bool {
        p.rxy.x == self.x_min || p.rxy.x == self.x_max || p.rxy.y == self.y_min || p.rxy.y == self.y_max
    }

    spec fn cursor(self) -> GridPoint3 {
        cell_at(self.root, self.x, self.y, self.z)
    }

    /// Whether the point `p` has yet to be produced.
    pub closed spec fn yet_to_come(&self, p: GridPoint3) -> bool {
        &&& !self.done
        &&& self.in_box(p)
        &&& self.is_shared(p)
        &&& !comes_before(p, self.cursor())
    }

    pub fn new(chunk_origin: ChunkOrigin, chunk_resolution: [GridCoord; 3]) -> (it: ChunkSharedPoints)
        requires
            chunk_origin@.rxy.x + chunk_resolution[0] <= i64::MAX,
            chunk_origin@.rxy.y + chunk_resolution[1] <= i64::MAX,
            chunk_origin@.z + chunk_resolution[2] <= i64::MAX,
            chunk_origin@.rxy.x + chunk_resolution[0] >= i64::MIN,
            chunk_origin@.rxy.y + chunk_resolution[1] >= i64::MIN,
            chunk_origin@.z + chunk_resolution[2] >= i64::MIN,
        ensures
            forall|p: GridPoint3|
                it.yet_to_come(p) <==> is_shared_point_of_chunk(chunk_origin@, chunk_resolution, p),
    {
        let pos = chunk_origin.pos();
        let x_max = pos.rxy.x + chunk_resolution[0];
        let y_max = pos.rxy.y + chunk_resolution[1];
        let z_end = pos.z + chunk_resolution[2];
        let empty = !(pos.rxy.x <= x_max && pos.rxy.y <= y_max && pos.z < z_end);
        ChunkSharedPoints {
            root: pos.rxy.root,
            x_min: pos.rxy.x,
            x_max: x_max,
            y_min: pos.rxy.y,
            y_max: y_max,
            z_min: pos.z,
            z_end: z_end,
            x: pos.rxy.x,
            y: pos.rxy.y,
            z: pos.z,
            done: empty,
        }
    }

    /// Moves on to the point after the current one, in order of x, then y,
    /// then z; or finishes after the last point of the chunk.
    fn advance(&mut self)
        requires
            !old(self).done,
        ensures
            final(self).root == old(self).root,
            final(self).x_min == old(self).x_min,
            final(self).x_max == old(self).x_max,
            final(self).y_min == old(self).y_min,
            final(self).y_max == old(self).y_max,
            final(self).z_min == old(self).z_min,
            final(self).z_end == old(self).z_end,
            forall|p: GridPoint3|
                old(self).in_box(p) ==> ((!final(self).done && !comes_before(p, final(self).cursor()))
                    <==> comes_before(old(self).cursor(), p)),
            !final(self).done ==> {
                ||| final(self).x > old(self).x
                ||| final(self).x == old(self).x && final(self).y > old(self).y
                ||| final(self).x == old(self).x && final(self).y == old(self).y && final(self).z
                    > old(self).z
            },
    {
        proof {
            use_type_invariant(&*self);
        }
        if self.z + 1 < self.z_end {
            self.z = self.z + 1;
        } else if self.y < self.y_max {
            self.z = self.z_min;
            self.y = self.y + 1;
        } else if self.x < self.x_max {
            self.z = self.z_min;
            self.y = self.y_min;
            self.x = self.x + 1;
        } else {
            self.done = true;
        }
    }

    /// Produces the next shared point, or `None` once all have been
    /// produced.
    pub fn next(&mut self) -> (r: Option<Point3>)
        ensures
            match r {
                None => forall|p: GridPoint3| !old(self).yet_to_come(p) && !final(self).yet_to_come(p),
                Some(p) => {
                    &&& old(self).yet_to_come(p)
                    &&& forall|q: GridPoint3| old(self).yet_to_come(q) ==> !comes_before(q, p)
                    &&& forall|q: GridPoint3|
                        final(self).yet_to_come(q) <==> (old(self).yet_to_come(q) && q != p)
                },
            },
    {
        loop
            invariant_except_break
                self.root == old(self).root,
                self.x_min == old(self).x_min,
                self.x_max == old(self).x_max,
                self.y_min == old(self).y_min,
                self.y_max == old(self).y_max,
                self.z_min == old(self).z_min,
                self.z_end == old(self).z_end,
                forall|p: GridPoint3| old(self).yet_to_come(p) <==> self.yet_to_come(p),
            ensures
                self.done,
                forall|p: GridPoint3| !old(self).yet_to_come(p),
                forall|p: GridPoint3| !self.yet_to_come(p),
            decreases
                (if self.done { 0int } else { 1int }),
                self.x_max - self.x,
                self.y_max - self.y,
                self.z_end - self.z,
        {
            proof {
                use_type_invariant(&*self);
            }
            if self.done {
                break;
            }
            let x = self.x;
            let y = self.y;
            let z = self.z;
            let ghost before = *self;
            self.advance();
            proof {
                use_type_invariant(&*self);
            }
            // Only return points that are on x=0, y=0, x=max, or y=max.
            let is_x_lim = x == self.x_min || x == self.x_max;
            let is_y_lim = y == self.y_min || y == self.y_max;
            if is_x_lim || is_y_lim {
                let p = Point3::new(self.root, x, y, z);
                assert(before.in_box(p));
                return Some(p);
            }
        }
        None
    }
}

} // verus!
